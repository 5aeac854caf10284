use arnak::query::bool_param_text;
use arnak::text::u64_to_text;
use arnak::collection_items::single_version;
use arnak::decode::{is_not_applicable, parse_flag, parse_minutes, parse_rank_value, parse_wishlist_priority, FieldError, VariantSet};
use arnak::details::{GameDetailsField, GameDetailsFields, GameDetailsValue, GameStats, StatsRatings};
use arnak::listings::{HotItemFields, HotItemValue, SearchResultFields, SearchResultValue};
use arnak::media::{GameCondition, MarketplaceListingFields, MarketplaceListingValue, Price, VideoCategory, VideoField, VideoFields, VideoValue};
use arnak::models::{GameFamilyType, GameType, ItemType, NameType, RankValue};
use arnak::polls::{PlayerAge, PlayerCount, Poll, PollResult, PollResults, SuggestedPlayerAgePoll, SuggestedPlayerCount, LanguageDependencePoll, SuggestedPlayerCountPoll};
use arnak::ranks::{xml_ranks_to_ranks, GameFamilyRank};
use arnak::timestamps::{parse_date_time, parse_date_time_long, parse_date_time_with_zone};
use arnak::user_details::{UserFields, UserValue};
use arnak::version::{GameVersion, GameVersionFields, GameVersionValue};
use arnak::wishlist::WishlistPriority;

fn custom(e: FieldError) -> String {
    match e {
        FieldError::Custom(m) => m,
        other => panic!("expected a custom error, got {other:?}"),
    }
}

#[test]
fn flags_are_one_or_zero() {
    assert_eq!(parse_flag("1").unwrap(), true);
    assert_eq!(parse_flag("0").unwrap(), false);
    assert!(matches!(parse_flag("yes"), Err(FieldError::UnknownVariant(v, VariantSet::Flag)) if v == "yes"));
}

#[test]
fn minutes_fit_in_u32() {
    assert_eq!(parse_minutes("30").unwrap(), 30);
    assert_eq!(
        custom(parse_minutes("-5").unwrap_err()),
        "unable to parse duration minutes string to u32: invalid digit found in string"
    );
    assert_eq!(
        custom(parse_minutes("4294967296").unwrap_err()),
        "unable to parse duration minutes string to u32: number too large to fit in target type"
    );
}

#[test]
fn ranks_and_priorities_read_back() {
    assert_eq!(parse_rank_value("Not Ranked").unwrap(), RankValue::NotRanked);
    assert_eq!(parse_rank_value("42").unwrap(), RankValue::Ranked(42));
    assert!(matches!(parse_rank_value("first"), Err(FieldError::UnknownVariant(v, VariantSet::Rank)) if v == "first"));
    assert_eq!(parse_wishlist_priority("1").unwrap(), WishlistPriority::MustHave);
    assert_eq!(parse_wishlist_priority("5").unwrap(), WishlistPriority::DontBuyThis);
    assert_eq!(
        custom(parse_wishlist_priority("6").unwrap_err()),
        "invalid value for wishlist priority, expected \"1\" - \"5\" but got 6"
    );
    assert!(is_not_applicable("N/A"));
    assert!(!is_not_applicable("n/a"));
}

#[test]
fn player_counts_and_ages() {
    assert_eq!(PlayerCount::from_text("3").unwrap(), PlayerCount::Players(3));
    assert_eq!(PlayerCount::from_text("5+").unwrap(), PlayerCount::PlayersOrAbove(5));
    assert_eq!(custom(PlayerCount::from_text("").unwrap_err()), "expected player count but got empty string");
    assert_eq!(
        custom(PlayerCount::from_text("x+").unwrap_err()),
        "unable to parse player count to u64: invalid digit found in string"
    );
    assert_eq!(PlayerAge::try_from("12".to_string()).unwrap(), PlayerAge::Age(12));
    assert_eq!(PlayerAge::try_from("21 and up".to_string()).unwrap(), PlayerAge::AgeOrAbove(21));
    assert_eq!(
        PlayerAge::try_from("old and up".to_string()).unwrap_err(),
        "unable to parse player age to u64: invalid digit found in string"
    );
}

fn vote(value: &str, n: u64) -> PollResult {
    PollResult { level: None, value: value.to_string(), number_of_votes: n }
}

#[test]
fn player_count_votes_are_tallied() {
    let r = PollResults {
        number_of_players: Some(PlayerCount::Players(2)),
        results: vec![vote("Best", 10), vote("Recommended", 20), vote("Not Recommended", 3)],
    };
    assert_eq!(
        SuggestedPlayerCount::try_from(r).unwrap(),
        SuggestedPlayerCount {
            player_count: PlayerCount::Players(2),
            best_votes: 10,
            recommended_votes: 20,
            not_recommended_votes: 3
        }
    );
    let r = PollResults { number_of_players: Some(PlayerCount::Players(2)), results: vec![vote("Best", 1)] };
    assert_eq!(SuggestedPlayerCount::try_from(r).unwrap_err(), "value `Recommended` missing for player count vote");
    let r = PollResults { number_of_players: None, results: vec![vote("Maybe", 1)] };
    assert_eq!(SuggestedPlayerCount::try_from(r).unwrap_err(), "unexpected player count vote option: Maybe");
    let r = PollResults { number_of_players: None, results: vec![] };
    assert_eq!(
        SuggestedPlayerCount::try_from(r).unwrap_err(),
        "player count was `None` when `Some` was expected"
    );
}

fn poll(name: &str, results: Vec<PollResults>) -> Poll {
    Poll { name: name.to_string(), title: "A poll".to_string(), total_voters: 7, results }
}

#[test]
fn age_and_language_polls_need_one_result_set() {
    let p = poll("suggested_playerage", vec![]);
    assert_eq!(SuggestedPlayerAgePoll::try_from(p).unwrap_err(), "expected 1 set of results but got 0");
    let p = poll(
        "suggested_playerage",
        vec![PollResults { number_of_players: None, results: vec![vote("2", 1), vote("21 and up", 4)] }],
    );
    let age = SuggestedPlayerAgePoll::try_from(p).unwrap();
    assert_eq!(age.results.len(), 2);
    assert_eq!(age.results[1].player_age, PlayerAge::AgeOrAbove(21));
    assert_eq!(age.results[1].votes, 4);
    let mut level = vote("No necessary in-game text", 5);
    level.level = Some(1);
    let p = poll("language_dependence", vec![PollResults { number_of_players: None, results: vec![level] }]);
    let lang = LanguageDependencePoll::try_from(p).unwrap();
    assert_eq!(lang.results[0].level, 1);
    assert_eq!(lang.results[0].dependence, "No necessary in-game text");
    let p = poll("language_dependence", vec![PollResults { number_of_players: None, results: vec![vote("x", 1)] }]);
    assert_eq!(LanguageDependencePoll::try_from(p).unwrap_err(), "missing language dependence level");
    let p = poll("suggested_numplayers", vec![PollResults { number_of_players: Some(PlayerCount::PlayersOrAbove(4)), results: vec![vote("Best", 0), vote("Recommended", 0), vote("Not Recommended", 9)] }]);
    let counts = SuggestedPlayerCountPoll::try_from(p).unwrap();
    assert_eq!(counts.total_voters, 7);
    assert_eq!(counts.results[0].not_recommended_votes, 9);
}

fn rank(t: GameFamilyType, id: u64) -> GameFamilyRank<f64> {
    GameFamilyRank {
        game_family_type: t,
        id,
        name: format!("family{id}"),
        friendly_name: format!("Family {id} Rank"),
        value: RankValue::Ranked(id),
        bayesian_average: 6.5,
    }
}

#[test]
fn ranks_split_into_main_and_families() {
    let ranks = vec![rank(GameFamilyType::Family, 5), rank(GameFamilyType::Subtype, 1), rank(GameFamilyType::Family, 7)];
    let (main, subs) = xml_ranks_to_ranks(ranks).unwrap();
    assert_eq!(main.id, 1);
    assert_eq!(subs.iter().map(|r| r.id).collect::<Vec<_>>(), vec![5, 7]);
    let doubled = vec![rank(GameFamilyType::Subtype, 1), rank(GameFamilyType::Subtype, 2)];
    assert!(matches!(xml_ranks_to_ranks(doubled), Err(FieldError::Duplicate("rank type=\"subtype\""))));
    let none = vec![rank(GameFamilyType::Family, 5)];
    assert!(matches!(xml_ranks_to_ranks(none), Err(FieldError::Missing("rank type=\"subtype\""))));
}

#[test]
fn video_fields_gather_once() {
    let mut f: VideoFields<u32> = VideoFields::new();
    f.accept(VideoValue::Id(1)).unwrap();
    f.accept(VideoValue::Title("Review".to_string())).unwrap();
    f.accept(VideoValue::Category(VideoCategory::Review)).unwrap();
    f.accept(VideoValue::Language("English".to_string())).unwrap();
    f.accept(VideoValue::Link("http://example.com".to_string())).unwrap();
    f.accept(VideoValue::Username("poster".to_string())).unwrap();
    assert!(matches!(f.check_key(VideoField::Id), Err(FieldError::Duplicate("id"))));
    assert!(f.check_key(VideoField::UserId).is_ok());
    assert!(matches!(f.accept(VideoValue::Id(2)), Err(FieldError::Duplicate("id"))));
    f.accept(VideoValue::UserId(99)).unwrap();
    let missing = f.clone().finish();
    assert!(matches!(missing, Err(FieldError::Missing("postdate"))));
    f.accept(VideoValue::PostDate(2024)).unwrap();
    let v = f.finish().unwrap();
    assert_eq!(v.id, 1);
    assert_eq!(v.uploader.user_id, 99);
    assert_eq!(v.uploader.username, "poster");
    assert_eq!(v.post_date, 2024);
}

#[test]
fn listing_needs_every_field() {
    let mut f: MarketplaceListingFields<u32> = MarketplaceListingFields::new();
    f.accept(MarketplaceListingValue::ListDate(1)).unwrap();
    f.accept(MarketplaceListingValue::Price(Price { currency: "USD".to_string(), value: "10.00".to_string() })).unwrap();
    f.accept(MarketplaceListingValue::Condition(GameCondition::LikeNew)).unwrap();
    assert!(matches!(f.clone().finish(), Err(FieldError::Missing("notes"))));
}

fn version_fields() -> GameVersionFields<f64> {
    let mut f = GameVersionFields::new();
    f.accept(GameVersionValue::Id(7)).unwrap();
    f.accept(GameVersionValue::Name(NameType::Primary, "Edition".to_string())).unwrap();
    f.accept(GameVersionValue::Name(NameType::Alternate, "Ausgabe".to_string())).unwrap();
    f.accept(GameVersionValue::YearPublished(2020)).unwrap();
    f.accept(GameVersionValue::Image("i".to_string())).unwrap();
    f.accept(GameVersionValue::Thumbnail("t".to_string())).unwrap();
    f.accept(GameVersionValue::Link(ItemType::BoardGameVersion, 3, "Original".to_string())).unwrap();
    f.accept(GameVersionValue::Link(ItemType::Language, 2184, "English".to_string())).unwrap();
    f.accept(GameVersionValue::Weight(None)).unwrap();
    f.accept(GameVersionValue::ProductCode(String::new())).unwrap();
    f.accept(GameVersionValue::Type("boardgameversion".to_string())).unwrap();
    f
}

#[test]
fn version_dimensions_are_all_or_none() {
    let mut f = version_fields();
    f.accept(GameVersionValue::Width(None)).unwrap();
    f.accept(GameVersionValue::Length(None)).unwrap();
    f.accept(GameVersionValue::Depth(None)).unwrap();
    let v: GameVersion<f64> = f.finish().unwrap();
    assert!(v.dimensions.is_none());
    assert_eq!(v.product_code, None);
    assert_eq!(v.alternate_names, vec!["Ausgabe".to_string()]);
    assert_eq!(v.original_game.id, 3);
    assert_eq!(v.languages[0].name, "English");

    let mut f = version_fields();
    f.accept(GameVersionValue::Width(Some(1.0))).unwrap();
    f.accept(GameVersionValue::Length(None)).unwrap();
    f.accept(GameVersionValue::Depth(Some(2.0))).unwrap();
    assert_eq!(
        custom(f.finish().unwrap_err()),
        "Invalid game dimensions, some but not all of width, length, depth, were set."
    );

    let mut f = version_fields();
    assert_eq!(
        custom(f.accept(GameVersionValue::Link(ItemType::BoardGameMechanic, 1, "x".to_string())).unwrap_err()),
        "found unexpected \"BoardGameMechanic\" link in version"
    );
    assert!(matches!(
        f.accept(GameVersionValue::ProductCode("A".to_string())),
        Err(FieldError::Duplicate("product_code"))
    ));
}

fn stats() -> GameStats<f64> {
    GameStats::from_ratings(StatsRatings {
        users_rated: 10,
        average: 7.0,
        bayes_average: 6.0,
        standard_deviation: 1.0,
        median: 0.0,
        ranks: vec![rank(GameFamilyType::Subtype, 1)],
        owned: 5,
        trading: 1,
        wanting: 2,
        wishing: 3,
        number_of_comments: 4,
        number_of_weights: 6,
        average_weight: 2.5,
    })
    .unwrap()
}

fn details_fields(game_type: GameType) -> GameDetailsFields<f64, u32> {
    let mut f = GameDetailsFields::new();
    f.accept(GameDetailsValue::Id(13)).unwrap();
    f.accept(GameDetailsValue::Type(game_type)).unwrap();
    f.accept(GameDetailsValue::Thumbnail("t".to_string())).unwrap();
    f.accept(GameDetailsValue::Image("i".to_string())).unwrap();
    f.accept(GameDetailsValue::Name(NameType::Primary, "CATAN".to_string())).unwrap();
    f.accept(GameDetailsValue::Description("d".to_string())).unwrap();
    f.accept(GameDetailsValue::YearPublished(1995)).unwrap();
    f.accept(GameDetailsValue::MinPlayers(3)).unwrap();
    f.accept(GameDetailsValue::MaxPlayers(4)).unwrap();
    f.accept(GameDetailsValue::PlayingTime(120)).unwrap();
    f.accept(GameDetailsValue::MinPlayTime(60)).unwrap();
    f.accept(GameDetailsValue::MaxPlayTime(120)).unwrap();
    f.accept(GameDetailsValue::MinAge(10)).unwrap();
    f.accept(GameDetailsValue::Link(ItemType::BoardGameExpansion, 926, "Seafarers".to_string())).unwrap();
    f.accept_poll(poll("suggested_numplayers", vec![])).unwrap();
    f.accept_poll(poll("suggested_playerage", vec![PollResults { number_of_players: None, results: vec![] }])).unwrap();
    f.accept_poll(poll("language_dependence", vec![PollResults { number_of_players: None, results: vec![] }])).unwrap();
    f
}

#[test]
fn game_details_need_statistics_and_split_expansions() {
    let f = details_fields(GameType::BoardGame);
    assert!(matches!(f.clone().finish(), Err(FieldError::Missing("statistics"))));
    let mut f = f;
    assert!(f.check_key(GameDetailsField::Statistics).is_ok());
    f.accept(GameDetailsValue::Statistics(stats())).unwrap();
    let g = f.finish().unwrap();
    assert_eq!(g.expansions.len(), 1);
    assert!(g.expansion_for.is_empty());
    assert!(g.videos.is_empty());
    assert_eq!(g.stats.rank.id, 1);

    let mut f = details_fields(GameType::BoardGameExpansion);
    f.accept(GameDetailsValue::Statistics(stats())).unwrap();
    let g = f.finish().unwrap();
    assert!(g.expansions.is_empty());
    assert_eq!(g.expansion_for[0].id, 926);
}

#[test]
fn game_details_polls_are_named() {
    let mut f = details_fields(GameType::BoardGame);
    assert!(matches!(
        f.accept_poll(poll("suggested_numplayers", vec![])),
        Err(FieldError::Duplicate("poll name=\"suggested_numplayers\""))
    ));
    assert_eq!(custom(f.accept_poll(poll("favourite_colour", vec![])).unwrap_err()), "unexpected poll name `favourite_colour`");
    assert_eq!(
        custom(f.accept(GameDetailsValue::Link(ItemType::BoardGameVersion, 1, "v".to_string())).unwrap_err()),
        "found unexpected \"BoardGameVersion\" link in game info"
    );
    let mut g: GameDetailsFields<f64, u32> = GameDetailsFields::new();
    assert_eq!(
        custom(g.accept_poll(poll("suggested_playerage", vec![])).unwrap_err()),
        "expected 1 set of results but got 0"
    );
}

#[test]
fn hot_items_parse_their_numbers() {
    let mut f = HotItemFields::new();
    assert_eq!(custom(f.accept(HotItemValue::Id("x1".to_string())).unwrap_err()), "failed to parse value a u64: invalid digit found in string");
    f.accept(HotItemValue::Id("174430".to_string())).unwrap();
    f.accept(HotItemValue::Rank("1".to_string())).unwrap();
    f.accept(HotItemValue::Name("Gloomhaven".to_string())).unwrap();
    assert!(matches!(f.clone().finish(), Err(FieldError::Missing("thumbnail"))));
    f.accept(HotItemValue::Thumbnail("t".to_string())).unwrap();
    f.accept(HotItemValue::YearPublished(2017)).unwrap();
    let h = f.finish().unwrap();
    assert_eq!((h.id, h.rank), (174430, 1));

    let mut s = SearchResultFields::new();
    s.accept(SearchResultValue::Id("3".to_string())).unwrap();
    assert!(matches!(s.clone().finish(), Err(FieldError::Missing("item_type"))));
}

#[test]
fn user_profile_drops_empty_entries() {
    let mut f: UserFields<u32> = UserFields::new();
    f.accept(UserValue::Id(1)).unwrap();
    f.accept(UserValue::Name("someone".to_string())).unwrap();
    f.accept(UserValue::FirstName("Some".to_string())).unwrap();
    f.accept(UserValue::LastName("One".to_string())).unwrap();
    f.accept(UserValue::AvatarLink("N/A".to_string())).unwrap();
    f.accept(UserValue::YearRegistered(2010)).unwrap();
    f.accept(UserValue::LastLogin(2024)).unwrap();
    f.accept(UserValue::Country(String::new())).unwrap();
    f.accept(UserValue::WebAddress("https://example.com".to_string())).unwrap();
    f.accept(UserValue::TradeRating(5)).unwrap();
    let u = f.finish().unwrap();
    assert_eq!(u.avatar_link, None);
    assert_eq!(u.country, None);
    assert_eq!(u.web_address.as_deref(), Some("https://example.com"));
    assert!(u.top_list.is_empty());
    assert_eq!(u.buddies.total, 0);
}

#[test]
fn version_lists_hold_one() {
    let versions = vec![version_fields(), version_fields()];
    let built: Vec<GameVersion<f64>> = versions
        .into_iter()
        .map(|mut f| {
            f.accept(GameVersionValue::Width(None)).unwrap();
            f.accept(GameVersionValue::Length(None)).unwrap();
            f.accept(GameVersionValue::Depth(None)).unwrap();
            f.finish().unwrap()
        })
        .collect();
    assert_eq!(
        custom(single_version(built.clone()).unwrap_err()),
        "invalid number of versions found for game ID 7, expected \"1\", but got 2"
    );
    assert_eq!(single_version(vec![built[0].clone()]).unwrap().unwrap().id, 7);
}

#[test]
fn dates_parse_in_the_endpoint_formats() {
    let d = parse_date_time("2024-04-13 18:29:01").unwrap();
    assert_eq!((d.date().year(), d.date().month(), d.date().day()), (2024, 4, 13));
    assert_eq!((d.hour(), d.minute(), d.second()), (18, 29, 1));
    let z = parse_date_time_with_zone("2024-07-22T16:33:30-05:00").unwrap();
    assert_eq!((z.date().day(), z.hour()), (22, 21));
    let l = parse_date_time_long("Thu, 14 Jun 2007 01:06:46 +0000").unwrap();
    assert_eq!((l.date().year(), l.date().month(), l.minute()), (2007, 6, 6));
    assert!(matches!(parse_date_time("yesterday"), Err(FieldError::Custom(_))));
}

#[test]
fn query_texts_read_back() {
    for b in [true, false] {
        assert_eq!(parse_flag(&bool_param_text(b)).unwrap(), b);
    }
    for p in [
        WishlistPriority::DontBuyThis,
        WishlistPriority::ThinkingAboutIt,
        WishlistPriority::LikeToHave,
        WishlistPriority::LoveToHave,
        WishlistPriority::MustHave,
    ] {
        assert_eq!(parse_wishlist_priority(&p.to_text()).unwrap(), p);
    }
    for n in [0u64, 7, 1234, u64::MAX] {
        assert_eq!(parse_rank_value(&u64_to_text(n)).unwrap(), RankValue::Ranked(n));
    }
}

#[test]
fn plain_dates_parse() {
    let d = arnak::timestamps::parse_date("2024-02-29").unwrap();
    assert_eq!((d.year(), d.month(), d.day()), (2024, 2, 29));
    assert!(matches!(arnak::timestamps::parse_date("2023-02-29"), Err(FieldError::Custom(_))));
}

#[test]
fn search_results_with_and_without_a_year() {
    let mut with_year = SearchResultFields::new();
    with_year.accept(SearchResultValue::Id("12668".to_string())).unwrap();
    with_year.accept(SearchResultValue::Type(ItemType::BoardGame)).unwrap();
    with_year.accept(SearchResultValue::Name("\"Get Smart\"".to_string())).unwrap();
    with_year.accept(SearchResultValue::YearPublished(1965)).unwrap();
    let r = with_year.finish().unwrap();
    assert_eq!(r.id, 12668);
    assert_eq!(r.item_type, ItemType::BoardGame);
    assert_eq!(r.name, "\"Get Smart\"");
    assert_eq!(r.year_published, Some(1965));

    let mut without_year = SearchResultFields::new();
    without_year.accept(SearchResultValue::Id("30346".to_string())).unwrap();
    without_year.accept(SearchResultValue::Type(ItemType::BoardGame)).unwrap();
    without_year.accept(SearchResultValue::Name("\"Get Smart\" Card Game".to_string())).unwrap();
    let r = without_year.finish().unwrap();
    assert_eq!(r.id, 30346);
    assert_eq!(r.name, "\"Get Smart\" Card Game");
    assert_eq!(r.year_published, None);
}

#[test]
fn search_result_year_given_twice_is_refused() {
    let mut f = SearchResultFields::new();
    f.accept(SearchResultValue::YearPublished(1965)).unwrap();
    assert!(matches!(f.accept(SearchResultValue::YearPublished(1966)), Err(FieldError::Duplicate(_))));
}

#[test]
fn item_type_texts_read_back() {
    let all = [
        ItemType::BoardGame,
        ItemType::BoardGameExpansion,
        ItemType::BoardGameAccessory,
        ItemType::BoardGameDesigner,
        ItemType::BoardGamePublisher,
        ItemType::BoardGameArtist,
        ItemType::BoardGameFamily,
        ItemType::BoardGameCategory,
        ItemType::BoardGameMechanic,
        ItemType::BoardGameCompilation,
        ItemType::BoardGameImplementation,
        ItemType::BoardGameVersion,
        ItemType::Language,
    ];
    for t in all.iter() {
        assert_eq!(ItemType::from_text(&t.to_text()), Some(*t));
        for u in all.iter() {
            if t != u {
                assert_ne!(t.to_text(), u.to_text());
            }
        }
    }
    assert_eq!(ItemType::from_text("boardgamefamily"), Some(ItemType::BoardGameFamily));
    assert_eq!(ItemType::from_text("BoardGame"), None);
    assert_eq!(ItemType::from_text(""), None);
}

#[test]
fn long_dates_local_optional_and_rfc3339() {
    let local = arnak::timestamps::parse_date_time_long_local("Thu, 14 Jun 2007 23:06:46 -0500").unwrap();
    assert_eq!((local.date().day(), local.hour(), local.minute()), (14, 23, 6));
    let utc = parse_date_time_long("Thu, 14 Jun 2007 23:06:46 -0500").unwrap();
    assert_eq!((utc.date().day(), utc.hour()), (15, 4));
    assert!(matches!(arnak::timestamps::parse_date_time_long_local("14 June"), Err(FieldError::Custom(_))));

    assert!(matches!(arnak::timestamps::parse_maybe_date_time_long(""), Ok(None)));
    let some = arnak::timestamps::parse_maybe_date_time_long("Thu, 14 Jun 2007 01:06:46 +0000").unwrap().unwrap();
    assert_eq!((some.date().year(), some.hour(), some.second()), (2007, 1, 46));
    assert!(matches!(arnak::timestamps::parse_maybe_date_time_long("soon"), Err(FieldError::Custom(_))));

    let z = arnak::timestamps::parse_date_time_rfc3339("2024-07-22T16:33:30-05:00").unwrap();
    assert_eq!((z.date().day(), z.hour(), z.minute(), z.second()), (22, 21, 33, 30));
    let zulu = arnak::timestamps::parse_date_time_rfc3339("2024-07-22T21:33:30Z").unwrap();
    assert_eq!((zulu.date().day(), zulu.hour()), (22, 21));
    let fraction = arnak::timestamps::parse_date_time_rfc3339("2024-07-22T21:33:30.250Z").unwrap();
    assert_eq!(fraction.second(), 30);
    assert!(matches!(arnak::timestamps::parse_date_time_rfc3339("2024-07-22"), Err(FieldError::Custom(_))));
}

#[test]
fn date_times_keep_fractions_and_leap_seconds() {
    let fraction = arnak::timestamps::parse_date_time_rfc3339("2024-07-22T21:33:30.250Z").unwrap();
    assert_eq!((fraction.second(), fraction.nanosecond()), (30, 250_000_000));
    let leap = parse_date_time("2016-12-31 23:59:60").unwrap();
    assert_eq!((leap.second(), leap.nanosecond()), (59, 1_000_000_000));
    assert_eq!(leap.to_text(), "2016-12-31 23:59:60");
    let plain = parse_date_time("2024-04-13 18:29:01").unwrap();
    assert_eq!(plain.nanosecond(), 0);
    assert_eq!(plain.to_text(), "2024-04-13 18:29:01");
    let d = arnak::date::NaiveDate::from_ymd_opt(2024, 1, 2).unwrap();
    assert!(d.and_hms_nano_opt(1, 2, 3, 2_000_000_000).is_none());
    assert_eq!(d.and_hms_nano_opt(1, 2, 59, 1_500_000_000).unwrap().to_text(), "2024-01-02 01:02:60");
}
