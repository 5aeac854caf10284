use arnak::collection::{BaseCollectionQuery, CollectionQueryBuilder, CollectionQueryParams};
use arnak::date::NaiveDate;
use arnak::game::{GameQueryBuilder, GameQueryParams};
use arnak::guild::{GuildMemberSortBy, GuildQueryBuilder, GuildQueryParams};
use arnak::models::{CollectionItemType, ItemSubType};
use arnak::plays::{PlaysItemType, PlaysQuery, PlaysQueryBuilder, PlaysQueryParams};
use arnak::user::{UserQueryBuilder, UserQueryParams};
use arnak::wishlist::WishlistPriority;

fn pairs(q: Vec<(&'static str, String)>) -> Vec<(String, String)> {
    q.into_iter().map(|(k, v)| (k.to_string(), v)).collect()
}

fn expect(v: &[(&str, &str)]) -> Vec<(String, String)> {
    v.iter().map(|(k, v)| (k.to_string(), v.to_string())).collect()
}

#[test]
fn collection_query_always_asks_for_stats() {
    let q = CollectionQueryBuilder::new(BaseCollectionQuery::new("somename", true), CollectionQueryParams::new())
        .build();
    assert_eq!(pairs(q), expect(&[("username", "somename"), ("stats", "1"), ("brief", "1")]));
}

#[test]
fn collection_query_puts_set_parameters_in_order() {
    let params = CollectionQueryParams::new()
        .include_owned(true)
        .item_ids(vec![1, 2])
        .item_id(3)
        .item_type(CollectionItemType::BoardGame)
        .wishlist_priority(WishlistPriority::MustHave)
        .modified_since(NaiveDate::from_ymd_opt(2024, 4, 9).unwrap())
        .min_rating(7.5f32.to_string())
        .max_plays(10)
        .collection_id(99);
    let q = CollectionQueryBuilder::new(BaseCollectionQuery::new("somename", false), params).build();
    assert_eq!(
        pairs(q),
        expect(&[
            ("username", "somename"),
            ("stats", "1"),
            ("brief", "0"),
            ("id", "1,2,3"),
            ("subtype", "boardgame"),
            ("own", "1"),
            ("wishlistpriority", "1"),
            ("modifiedsince", "24-04-09"),
            ("minrating", "7.5"),
            ("maxplays", "10"),
            ("collid", "99"),
        ])
    );
}

#[test]
fn game_query_lists_ids() {
    let q = GameQueryBuilder::new(vec![13, 3076], GameQueryParams::new().include_videos(true).page(2)).build();
    assert_eq!(
        pairs(q),
        expect(&[
            ("type", "boardgame,boardgameexpansion"),
            ("stats", "1"),
            ("id", "13,3076"),
            ("videos", "1"),
            ("page", "2"),
        ])
    );
}

#[test]
fn guild_query_members_page() {
    let q = GuildQueryBuilder::new(13, GuildQueryParams::new().include_member_page(2).sort_by(GuildMemberSortBy::DateJoined))
        .build();
    assert_eq!(pairs(q), expect(&[("id", "13"), ("members", "1"), ("page", "2"), ("sort", "date")]));
}

#[test]
fn user_query_starts_with_name() {
    let q = UserQueryBuilder::new("someone", UserQueryParams::new().include_buddies(true)).build();
    assert_eq!(pairs(q), expect(&[("name", "someone"), ("domain", "boardgame"), ("buddies", "1")]));
}

#[test]
fn plays_query_by_id_and_dates() {
    let params = PlaysQueryParams::new()
        .min_date(NaiveDate::from_ymd_opt(2023, 1, 2).unwrap())
        .sub_type(ItemSubType::BoardGame)
        .page(3);
    let q = PlaysQueryBuilder::new(PlaysQuery::QueryById { id: 5, plays_item_type: PlaysItemType::Family }, params)
        .build();
    assert_eq!(
        pairs(q),
        expect(&[("id", "5"), ("type", "family"), ("mindate", "2023-01-02"), ("subtype", "boardgame"), ("page", "3")])
    );
}

#[test]
fn dates_are_checked_and_padded() {
    assert!(NaiveDate::from_ymd_opt(2023, 2, 29).is_none());
    assert!(NaiveDate::from_ymd_opt(2024, 2, 29).is_some());
    assert!(NaiveDate::from_ymd_opt(2024, 13, 1).is_none());
    assert_eq!(NaiveDate::from_ymd_opt(12, 3, 4).unwrap().to_text(), "0012-03-04");
    let t = NaiveDate::from_ymd_opt(2024, 12, 1).unwrap().and_hms_opt(10, 59, 45).unwrap();
    assert_eq!(t.to_text(), "2024-12-01 10:59:45");
}

#[test]
fn collection_query_with_ratings_and_date() {
    let params = CollectionQueryParams::new()
        .include_version_info(true)
        .min_rating(3.5f32.to_string())
        .max_rating(9.0f32.to_string())
        .min_bgg_rating(5.5f32.to_string())
        .max_bgg_rating(8.7f32.to_string())
        .modified_since(NaiveDate::from_ymd_opt(2024, 5, 17).unwrap());
    let q = CollectionQueryBuilder::new(BaseCollectionQuery::new("someone", false), params).build();
    assert_eq!(
        pairs(q),
        expect(&[
            ("username", "someone"),
            ("stats", "1"),
            ("brief", "0"),
            ("version", "1"),
            ("modifiedsince", "24-05-17"),
            ("minrating", "3.5"),
            ("rating", "9"),
            ("minbggrating", "5.5"),
            ("bggrating", "8.7"),
        ])
    );
}

#[test]
fn short_dates_match_chrono() {
    for (y, m, d) in [(2024, 5, 17), (5, 1, 2), (-1, 12, 31), (-262143, 1, 1), (1999, 10, 9), (262142, 12, 31)] {
        let ours = NaiveDate::from_ymd_opt(y, m, d).unwrap().to_short_text();
        let theirs = chrono::NaiveDate::from_ymd_opt(y, m, d).unwrap().format("%y-%m-%d").to_string();
        assert_eq!(ours, theirs);
        let long = NaiveDate::from_ymd_opt(y, m, d).unwrap().to_text();
        assert_eq!(long, chrono::NaiveDate::from_ymd_opt(y, m, d).unwrap().format("%Y-%m-%d").to_string());
    }
}
