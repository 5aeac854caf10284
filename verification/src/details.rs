//! A game with its full details, as the game endpoint returns it.
use vstd::prelude::*;

use crate::decode::{
    result_view, set_once, unexpected_link, unexpected_link_message, vacant, FieldError,
    FieldErrorView,
};
use crate::media::{MarketplaceListing, Video};
use crate::models::{
    Game, GameAccessory, GameArtist, GameCategory, GameCompilation, GameDesigner, GameFamilyName,
    GameImplementation, GameMechanic, GamePublisher, GameType, ItemType, NameType,
};
use crate::polls::{
    language_poll_error, language_poll_of, player_age_poll_error, player_age_poll_of,
    player_count_poll_error, player_count_poll_of, LanguageDependencePoll, Poll,
    SuggestedPlayerAgePoll, SuggestedPlayerCountPoll,
};
use crate::ranks::{split_ranks_spec, xml_ranks_to_ranks, GameFamilyRank, ItemFamilyRank};
use crate::text::same_text;
use crate::version::GameVersion;

verus! {

broadcast use vstd::string::group_string_axioms;

/// The statistics of a game as the API lists them, before its ranks are sorted out.
///
/// `F` is the type of a rating: the API gives them as floating point numbers.
#[derive(Clone, Debug)]
pub struct StatsRatings<F> {
    /// The number of users who rated the game.
    pub users_rated: u64,
    /// The average rating.
    pub average: F,
    /// The bayesian average rating.
    pub bayes_average: F,
    /// The standard deviation of the ratings.
    pub standard_deviation: F,
    /// The median rating.
    pub median: F,
    /// The ranks of the game, among all games and within families.
    pub ranks: Vec<GameFamilyRank<F>>,
    /// The number of users who own the game.
    pub owned: u64,
    /// The number of users trading the game away.
    pub trading: u64,
    /// The number of users who want the game in a trade.
    pub wanting: u64,
    /// The number of users who have the game on their wishlist.
    pub wishing: u64,
    /// The number of comments on the game.
    pub number_of_comments: u64,
    /// The number of weight ratings given to the game.
    pub number_of_weights: u64,
    /// The average weight rating, from 0 to 5.
    pub average_weight: F,
}

/// Statistics of a game: its ratings and ranks, and how many users own or want it.
///
/// `F` is the type of a rating: the API gives them as floating point numbers.
#[derive(Clone, Debug)]
pub struct GameStats<F> {
    /// The number of users who rated this game.
    pub users_rated: u64,
    /// The average rating from users, from 0 to 10.
    pub average_rating: F,
    /// The score out of 10 as a bayesian average, the Geek rating.
    pub bayesian_average: F,
    /// The standard deviation of the ratings.
    pub standard_deviation: F,
    /// The median rating, which the API always gives as 0.
    pub median: F,
    /// The rank of this game among all games.
    pub rank: ItemFamilyRank<F>,
    /// The ranks of this game within families, such as family or strategy games.
    pub sub_family_ranks: Vec<ItemFamilyRank<F>>,
    /// The number of users who own this game.
    pub users_owned: u64,
    /// The number of users trading this game away.
    pub users_trading: u64,
    /// The number of users who want this game in a trade.
    pub users_want_in_trade: u64,
    /// The number of users who have this game on their wishlist.
    pub users_wishlisted: u64,
    /// The number of comments on this game.
    pub number_of_comments: u64,
    /// The number of weight ratings given to this game.
    pub number_of_weights: u64,
    /// The average weight rating, from 0 for the simplest to 5 for the most complex.
    pub weight_rating: F,
}

/// Whether statistics are those that a listing of them gives, with its ranks sorted out.
pub open spec fn stats_built<F>(s: GameStats<F>, r: StatsRatings<F>) -> bool {
    &&& split_ranks_spec(r.ranks@) matches Ok(v) && s.rank == v.0 && s.sub_family_ranks@ == v.1
    &&& s.users_rated == r.users_rated
    &&& s.average_rating == r.average
    &&& s.bayesian_average == r.bayes_average
    &&& s.standard_deviation == r.standard_deviation
    &&& s.median == r.median
    &&& s.users_owned == r.owned
    &&& s.users_trading == r.trading
    &&& s.users_want_in_trade == r.wanting
    &&& s.users_wishlisted == r.wishing
    &&& s.number_of_comments == r.number_of_comments
    &&& s.number_of_weights == r.number_of_weights
    &&& s.weight_rating == r.average_weight
}

impl<F> GameStats<F> {
    /// The statistics that a listing of them gives, with the rank among all games split from
    /// the ranks within families.
    pub fn from_ratings(r: StatsRatings<F>) -> (s: Result<GameStats<F>, FieldError>)
        ensures
            match split_ranks_spec(r.ranks@) {
                Ok(_) => s matches Ok(x) && stats_built(x, r),
                Err(e) => s matches Err(x) && x@ == e,
            },
    {
        let ghost r0 = r;
        let (rank, sub_family_ranks) = match xml_ranks_to_ranks(r.ranks) {
            Ok(p) => p,
            Err(e) => {
                return Err(e);
            },
        };
        Ok(GameStats {
            users_rated: r.users_rated,
            average_rating: r.average,
            bayesian_average: r.bayes_average,
            standard_deviation: r.standard_deviation,
            median: r.median,
            rank,
            sub_family_ranks,
            users_owned: r.owned,
            users_trading: r.trading,
            users_want_in_trade: r.wanting,
            users_wishlisted: r.wishing,
            number_of_comments: r.number_of_comments,
            number_of_weights: r.number_of_weights,
            weight_rating: r.average_weight,
        })
    }
}

/// A comment left on a game by a user, with a rating, a text, or both.
///
/// `F` is the type of a rating: the API gives them as floating point numbers.
#[derive(Clone, Debug)]
pub struct RatingComment<F> {
    /// The user who left the comment.
    pub username: String,
    /// The rating from 0 to 10 the user gave the game, if any.
    pub rating: Option<F>,
    /// The text of the comment, possibly empty.
    pub comment: String,
}

/// A page of comments left on a game.
#[derive(Clone, Debug)]
pub struct RatingCommentPage<F> {
    /// The number of comments in all pages.
    pub total_items: u64,
    /// The number of this page, the first being 1.
    pub page_number: u64,
    /// The comments of this page.
    pub comments: Vec<RatingComment<F>>,
}

/// A game, or expansion, with all its details.
///
/// Some of them, such as versions, videos, marketplace listings and comments, are only there
/// when they were asked for. `F` is the type of a rating or size and `D` that of a date and
/// time.
#[derive(Clone, Debug)]
pub struct GameDetails<F, D> {
    /// The ID of the game.
    pub id: u64,
    /// The type of the game, whether it is an expansion or not.
    pub game_type: GameType,
    /// The name of the game.
    pub name: String,
    /// Alternate names of the game, usually translations.
    pub alternate_names: Vec<String>,
    /// A description of the game.
    pub description: String,
    /// A link to a jpg image for the game.
    pub image: String,
    /// A link to a jpg thumbnail image for the game.
    pub thumbnail: String,
    /// The year the game was first published.
    pub year_published: i64,
    /// The minimum number of players.
    pub min_players: u64,
    /// The maximum number of players.
    pub max_players: u64,
    /// The poll on the best number of players.
    pub suggested_player_count: SuggestedPlayerCountPoll,
    /// The time the game is suggested to take, in minutes.
    pub playing_time: i64,
    /// The shortest time the game is suggested to take, in minutes.
    pub min_play_time: i64,
    /// The longest time the game is suggested to take, in minutes.
    pub max_play_time: i64,
    /// The youngest suggested age for playing the game.
    pub min_age: u64,
    /// The poll on the youngest suitable age.
    pub suggested_player_age: SuggestedPlayerAgePoll,
    /// The poll on how much the game depends on its language.
    pub suggested_language_dependence: LanguageDependencePoll,
    /// The categories of the game.
    pub categories: Vec<GameCategory>,
    /// The mechanics of the game.
    pub mechanics: Vec<GameMechanic>,
    /// The families the game belongs to.
    pub game_families: Vec<GameFamilyName>,
    /// The expansions of this game.
    pub expansions: Vec<Game>,
    /// The games this game is an expansion for.
    pub expansion_for: Vec<Game>,
    /// The accessories of this game.
    pub accessories: Vec<GameAccessory>,
    /// The compilations of this game.
    pub compilations: Vec<GameCompilation>,
    /// The reimplementations of this game.
    pub reimplementations: Vec<GameImplementation>,
    /// The designers of this game.
    pub designers: Vec<GameDesigner>,
    /// The artists of this game.
    pub artists: Vec<GameArtist>,
    /// The publishers of this game.
    pub publishers: Vec<GamePublisher>,
    /// The ratings, ranks and ownership statistics of the game.
    pub stats: GameStats<F>,
    /// The versions of the game, when asked for.
    pub versions: Vec<GameVersion<F>>,
    /// Videos about the game, when asked for.
    pub videos: Vec<Video<D>>,
    /// Copies of the game for sale, when asked for.
    pub marketplace_listings: Vec<MarketplaceListing<D>>,
    /// A page of comments and ratings, when asked for.
    pub rating_comments: Option<RatingCommentPage<F>>,
}

/// The first field of a game that must be given and was not, if any.
pub open spec fn details_missing<F, D>(f: GameDetailsFieldsView<F, D>) -> Option<Seq<char>> {
    if f.id is None {
        Some("id"@)
    } else if f.game_type is None {
        Some("type"@)
    } else if f.thumbnail is None {
        Some("thumbnail"@)
    } else if f.image is None {
        Some("image"@)
    } else if f.name is None {
        Some("name"@)
    } else if f.description is None {
        Some("description"@)
    } else if f.year_published is None {
        Some("yearpublished"@)
    } else if f.min_players is None {
        Some("minplayers"@)
    } else if f.max_players is None {
        Some("maxplayers"@)
    } else if f.playing_time is None {
        Some("playingtime"@)
    } else if f.min_play_time is None {
        Some("minplaytime"@)
    } else if f.max_play_time is None {
        Some("maxplaytime"@)
    } else if f.min_age is None {
        Some("minage"@)
    } else if f.suggested_player_count is None {
        Some("poll name=\"suggested_numplayers\""@)
    } else if f.suggested_player_age is None {
        Some("poll name=\"suggested_playerage\""@)
    } else if f.suggested_language_dependence is None {
        Some("poll name=\"language_dependence\""@)
    } else if f.stats is None {
        Some("statistics"@)
    } else {
        None
    }
}

/// The error that finishing a game gives, if any.
pub open spec fn details_finish_error<F, D>(f: GameDetailsFieldsView<F, D>) -> Option<FieldErrorView> {
    match details_missing(f) {
        Some(n) => Some(FieldErrorView::Missing(n)),
        None => None,
    }
}

/// Whether a game is the one that these fields make.
pub open spec fn details_built<F, D>(x: GameDetails<F, D>, f: GameDetailsFieldsView<F, D>) -> bool {
    &&& x.id == f.id.unwrap()
    &&& x.game_type == f.game_type.unwrap()
    &&& x.name == f.name.unwrap()
    &&& x.alternate_names@ == f.alternate_names
    &&& x.description == f.description.unwrap()
    &&& x.image == f.image.unwrap()
    &&& x.thumbnail == f.thumbnail.unwrap()
    &&& x.year_published == f.year_published.unwrap()
    &&& x.min_players == f.min_players.unwrap()
    &&& x.max_players == f.max_players.unwrap()
    &&& x.suggested_player_count == f.suggested_player_count.unwrap()
    &&& x.playing_time == f.playing_time.unwrap()
    &&& x.min_play_time == f.min_play_time.unwrap()
    &&& x.max_play_time == f.max_play_time.unwrap()
    &&& x.min_age == f.min_age.unwrap()
    &&& x.suggested_player_age == f.suggested_player_age.unwrap()
    &&& x.suggested_language_dependence == f.suggested_language_dependence.unwrap()
    &&& x.categories@ == f.categories
    &&& x.mechanics@ == f.mechanics
    &&& x.game_families@ == f.game_families
    &&& (f.game_type.unwrap() == GameType::BoardGame ==> x.expansions@ == f.expansion_links && x.expansion_for@.len() == 0) && (f.game_type.unwrap() == GameType::BoardGameExpansion ==> x.expansions@.len() == 0 && x.expansion_for@ == f.expansion_links)
    &&& x.accessories@ == f.accessories
    &&& x.compilations@ == f.compilations
    &&& x.reimplementations@ == f.reimplementations
    &&& x.designers@ == f.designers
    &&& x.artists@ == f.artists
    &&& x.publishers@ == f.publishers
    &&& x.stats == f.stats.unwrap()
    &&& match f.versions { Some(v) => x.versions == v, None => x.versions@.len() == 0 }
    &&& match f.videos { Some(v) => x.videos == v, None => x.videos@.len() == 0 }
    &&& match f.marketplace_listings { Some(v) => x.marketplace_listings == v, None => x.marketplace_listings@.len() == 0 }
    &&& x.rating_comments == f.rating_comments
}

/// The kinds of field of a game, as the keys of its XML object.
#[derive(Clone, Copy, Debug, PartialEq, Eq, Structural)]
pub enum GameDetailsField {
    /// The `id` field.
    Id,
    /// The `type` field.
    Type,
    /// The `thumbnail` field.
    Thumbnail,
    /// The `image` field.
    Image,
    /// The `description` field.
    Description,
    /// The `yearpublished` field.
    YearPublished,
    /// The `minplayers` field.
    MinPlayers,
    /// The `maxplayers` field.
    MaxPlayers,
    /// The `playingtime` field.
    PlayingTime,
    /// The `minplaytime` field.
    MinPlayTime,
    /// The `maxplaytime` field.
    MaxPlayTime,
    /// The `minage` field.
    MinAge,
    /// The `statistics` field.
    Statistics,
    /// The `versions` field.
    Versions,
    /// The `videos` field.
    Videos,
    /// The `marketplacelistings` field.
    MarketPlaceListings,
    /// The `comments` field.
    Comments,
    /// A `name` field, primary or alternate.
    Name,
    /// A `link` field.
    Link,
    /// A `poll` field, read with `accept_poll`.
    Poll,
}

/// The value of a field of a game, read from the XML.
#[derive(Clone, Debug)]
pub enum GameDetailsValue<F, D> {
    /// The `id` field: its ID.
    Id(u64),
    /// The `type` field: whether it is an expansion.
    Type(GameType),
    /// The `thumbnail` field: the link to its thumbnail.
    Thumbnail(String),
    /// The `image` field: the link to its image.
    Image(String),
    /// The `description` field: its description.
    Description(String),
    /// The `yearpublished` field: the year it was published.
    YearPublished(i64),
    /// The `minplayers` field: the minimum number of players.
    MinPlayers(u64),
    /// The `maxplayers` field: the maximum number of players.
    MaxPlayers(u64),
    /// The `playingtime` field: the playing time in minutes.
    PlayingTime(i64),
    /// The `minplaytime` field: the shortest playing time in minutes.
    MinPlayTime(i64),
    /// The `maxplaytime` field: the longest playing time in minutes.
    MaxPlayTime(i64),
    /// The `minage` field: the youngest suggested age.
    MinAge(u64),
    /// The `statistics` field: its statistics.
    Statistics(GameStats<F>),
    /// The `versions` field: its versions.
    Versions(Vec<GameVersion<F>>),
    /// The `videos` field: videos about it.
    Videos(Vec<Video<D>>),
    /// The `marketplacelistings` field: copies for sale.
    MarketPlaceListings(Vec<MarketplaceListing<D>>),
    /// The `comments` field: a page of comments.
    Comments(RatingCommentPage<F>),
    /// A `name` field: a primary or an alternate name.
    Name(NameType, String),
    /// A `link` field: the type, ID and name of a linked item.
    Link(ItemType, u64, String),
}

/// The fields of a game read so far.
#[derive(Clone, Debug)]
pub struct GameDetailsFields<F, D> {
    id: Option<u64>,
    game_type: Option<GameType>,
    thumbnail: Option<String>,
    image: Option<String>,
    description: Option<String>,
    year_published: Option<i64>,
    min_players: Option<u64>,
    max_players: Option<u64>,
    playing_time: Option<i64>,
    min_play_time: Option<i64>,
    max_play_time: Option<i64>,
    min_age: Option<u64>,
    stats: Option<GameStats<F>>,
    versions: Option<Vec<GameVersion<F>>>,
    videos: Option<Vec<Video<D>>>,
    marketplace_listings: Option<Vec<MarketplaceListing<D>>>,
    rating_comments: Option<RatingCommentPage<F>>,
    name: Option<String>,
    suggested_player_count: Option<SuggestedPlayerCountPoll>,
    suggested_player_age: Option<SuggestedPlayerAgePoll>,
    suggested_language_dependence: Option<LanguageDependencePoll>,
    alternate_names: Vec<String>,
    categories: Vec<GameCategory>,
    mechanics: Vec<GameMechanic>,
    game_families: Vec<GameFamilyName>,
    expansion_links: Vec<Game>,
    accessories: Vec<GameAccessory>,
    compilations: Vec<GameCompilation>,
    reimplementations: Vec<GameImplementation>,
    designers: Vec<GameDesigner>,
    artists: Vec<GameArtist>,
    publishers: Vec<GamePublisher>,
}

/// The fields of a game read so far, as mathematical values.
#[verifier::ext_equal]
pub ghost struct GameDetailsFieldsView<F, D> {
    /// The `id` field, once read: its ID.
    pub id: Option<u64>,
    /// The `type` field, once read: whether it is an expansion.
    pub game_type: Option<GameType>,
    /// The `thumbnail` field, once read: the link to its thumbnail.
    pub thumbnail: Option<String>,
    /// The `image` field, once read: the link to its image.
    pub image: Option<String>,
    /// The `description` field, once read: its description.
    pub description: Option<String>,
    /// The `yearpublished` field, once read: the year it was published.
    pub year_published: Option<i64>,
    /// The `minplayers` field, once read: the minimum number of players.
    pub min_players: Option<u64>,
    /// The `maxplayers` field, once read: the maximum number of players.
    pub max_players: Option<u64>,
    /// The `playingtime` field, once read: the playing time in minutes.
    pub playing_time: Option<i64>,
    /// The `minplaytime` field, once read: the shortest playing time in minutes.
    pub min_play_time: Option<i64>,
    /// The `maxplaytime` field, once read: the longest playing time in minutes.
    pub max_play_time: Option<i64>,
    /// The `minage` field, once read: the youngest suggested age.
    pub min_age: Option<u64>,
    /// The `statistics` field, once read: its statistics.
    pub stats: Option<GameStats<F>>,
    /// The `versions` field, once read: its versions.
    pub versions: Option<Vec<GameVersion<F>>>,
    /// The `videos` field, once read: videos about it.
    pub videos: Option<Vec<Video<D>>>,
    /// The `marketplacelistings` field, once read: copies for sale.
    pub marketplace_listings: Option<Vec<MarketplaceListing<D>>>,
    /// The `comments` field, once read: a page of comments.
    pub rating_comments: Option<RatingCommentPage<F>>,
    /// The primary name, once read.
    pub name: Option<String>,
    /// The player count poll, once read.
    pub suggested_player_count: Option<SuggestedPlayerCountPoll>,
    /// The player age poll, once read.
    pub suggested_player_age: Option<SuggestedPlayerAgePoll>,
    /// The language dependence poll, once read.
    pub suggested_language_dependence: Option<LanguageDependencePoll>,
    /// The alternate names read so far.
    pub alternate_names: Seq<String>,
    /// The categories read so far.
    pub categories: Seq<GameCategory>,
    /// The mechanics read so far.
    pub mechanics: Seq<GameMechanic>,
    /// The families read so far.
    pub game_families: Seq<GameFamilyName>,
    /// The expansion links read so far, expansions or expanded games by the type.
    pub expansion_links: Seq<Game>,
    /// The accessories read so far.
    pub accessories: Seq<GameAccessory>,
    /// The compilations read so far.
    pub compilations: Seq<GameCompilation>,
    /// The reimplementations read so far.
    pub reimplementations: Seq<GameImplementation>,
    /// The designers read so far.
    pub designers: Seq<GameDesigner>,
    /// The artists read so far.
    pub artists: Seq<GameArtist>,
    /// The publishers read so far.
    pub publishers: Seq<GamePublisher>,
}

impl<F, D> View for GameDetailsFields<F, D> {
    type V = GameDetailsFieldsView<F, D>;

    closed spec fn view(&self) -> GameDetailsFieldsView<F, D> {
        GameDetailsFieldsView {
            id: self.id,
            game_type: self.game_type,
            thumbnail: self.thumbnail,
            image: self.image,
            description: self.description,
            year_published: self.year_published,
            min_players: self.min_players,
            max_players: self.max_players,
            playing_time: self.playing_time,
            min_play_time: self.min_play_time,
            max_play_time: self.max_play_time,
            min_age: self.min_age,
            stats: self.stats,
            versions: self.versions,
            videos: self.videos,
            marketplace_listings: self.marketplace_listings,
            rating_comments: self.rating_comments,
            name: self.name,
            suggested_player_count: self.suggested_player_count,
            suggested_player_age: self.suggested_player_age,
            suggested_language_dependence: self.suggested_language_dependence,
            alternate_names: self.alternate_names@,
            categories: self.categories@,
            mechanics: self.mechanics@,
            game_families: self.game_families@,
            expansion_links: self.expansion_links@,
            accessories: self.accessories@,
            compilations: self.compilations@,
            reimplementations: self.reimplementations@,
            designers: self.designers@,
            artists: self.artists@,
            publishers: self.publishers@,
        }
    }
}

/// Whether a key may come next: a field that may be given once is refused when it was
/// given already.
pub open spec fn details_key_check<F, D>(f: GameDetailsFieldsView<F, D>, key: GameDetailsField) -> Result<(), FieldErrorView> {
    match key {
        GameDetailsField::Id => if f.id is Some {
            Err(FieldErrorView::Duplicate("id"@))
        } else {
            Ok(())
        },
        GameDetailsField::Type => if f.game_type is Some {
            Err(FieldErrorView::Duplicate("type"@))
        } else {
            Ok(())
        },
        GameDetailsField::Thumbnail => if f.thumbnail is Some {
            Err(FieldErrorView::Duplicate("thumbnail"@))
        } else {
            Ok(())
        },
        GameDetailsField::Image => if f.image is Some {
            Err(FieldErrorView::Duplicate("image"@))
        } else {
            Ok(())
        },
        GameDetailsField::Description => if f.description is Some {
            Err(FieldErrorView::Duplicate("description"@))
        } else {
            Ok(())
        },
        GameDetailsField::YearPublished => if f.year_published is Some {
            Err(FieldErrorView::Duplicate("yearpublished"@))
        } else {
            Ok(())
        },
        GameDetailsField::MinPlayers => if f.min_players is Some {
            Err(FieldErrorView::Duplicate("minplayers"@))
        } else {
            Ok(())
        },
        GameDetailsField::MaxPlayers => if f.max_players is Some {
            Err(FieldErrorView::Duplicate("maxplayers"@))
        } else {
            Ok(())
        },
        GameDetailsField::PlayingTime => if f.playing_time is Some {
            Err(FieldErrorView::Duplicate("playingtime"@))
        } else {
            Ok(())
        },
        GameDetailsField::MinPlayTime => if f.min_play_time is Some {
            Err(FieldErrorView::Duplicate("minplaytime"@))
        } else {
            Ok(())
        },
        GameDetailsField::MaxPlayTime => if f.max_play_time is Some {
            Err(FieldErrorView::Duplicate("maxplaytime"@))
        } else {
            Ok(())
        },
        GameDetailsField::MinAge => if f.min_age is Some {
            Err(FieldErrorView::Duplicate("minage"@))
        } else {
            Ok(())
        },
        GameDetailsField::Statistics => if f.stats is Some {
            Err(FieldErrorView::Duplicate("statistics"@))
        } else {
            Ok(())
        },
        GameDetailsField::Versions => if f.versions is Some {
            Err(FieldErrorView::Duplicate("versions"@))
        } else {
            Ok(())
        },
        GameDetailsField::Videos => if f.videos is Some {
            Err(FieldErrorView::Duplicate("videos"@))
        } else {
            Ok(())
        },
        GameDetailsField::MarketPlaceListings => if f.marketplace_listings is Some {
            Err(FieldErrorView::Duplicate("marketplacelistings"@))
        } else {
            Ok(())
        },
        GameDetailsField::Comments => if f.rating_comments is Some {
            Err(FieldErrorView::Duplicate("comments"@))
        } else {
            Ok(())
        },
        GameDetailsField::Poll => Ok(()),
        GameDetailsField::Name => Ok(()),
        GameDetailsField::Link => Ok(()),
    }
}

/// The fields after one more value is read, or the error that the value brings.
pub open spec fn details_accept<F, D>(f: GameDetailsFieldsView<F, D>, value: GameDetailsValue<F, D>) -> Result<GameDetailsFieldsView<F, D>, FieldErrorView> {
    match value {
        GameDetailsValue::Id(x) => if f.id is Some {
            Err(FieldErrorView::Duplicate("id"@))
        } else {
            Ok(GameDetailsFieldsView { id: Some(x), ..f })
        },
        GameDetailsValue::Type(x) => if f.game_type is Some {
            Err(FieldErrorView::Duplicate("type"@))
        } else {
            Ok(GameDetailsFieldsView { game_type: Some(x), ..f })
        },
        GameDetailsValue::Thumbnail(x) => if f.thumbnail is Some {
            Err(FieldErrorView::Duplicate("thumbnail"@))
        } else {
            Ok(GameDetailsFieldsView { thumbnail: Some(x), ..f })
        },
        GameDetailsValue::Image(x) => if f.image is Some {
            Err(FieldErrorView::Duplicate("image"@))
        } else {
            Ok(GameDetailsFieldsView { image: Some(x), ..f })
        },
        GameDetailsValue::Description(x) => if f.description is Some {
            Err(FieldErrorView::Duplicate("description"@))
        } else {
            Ok(GameDetailsFieldsView { description: Some(x), ..f })
        },
        GameDetailsValue::YearPublished(x) => if f.year_published is Some {
            Err(FieldErrorView::Duplicate("yearpublished"@))
        } else {
            Ok(GameDetailsFieldsView { year_published: Some(x), ..f })
        },
        GameDetailsValue::MinPlayers(x) => if f.min_players is Some {
            Err(FieldErrorView::Duplicate("minplayers"@))
        } else {
            Ok(GameDetailsFieldsView { min_players: Some(x), ..f })
        },
        GameDetailsValue::MaxPlayers(x) => if f.max_players is Some {
            Err(FieldErrorView::Duplicate("maxplayers"@))
        } else {
            Ok(GameDetailsFieldsView { max_players: Some(x), ..f })
        },
        GameDetailsValue::PlayingTime(x) => if f.playing_time is Some {
            Err(FieldErrorView::Duplicate("playingtime"@))
        } else {
            Ok(GameDetailsFieldsView { playing_time: Some(x), ..f })
        },
        GameDetailsValue::MinPlayTime(x) => if f.min_play_time is Some {
            Err(FieldErrorView::Duplicate("minplaytime"@))
        } else {
            Ok(GameDetailsFieldsView { min_play_time: Some(x), ..f })
        },
        GameDetailsValue::MaxPlayTime(x) => if f.max_play_time is Some {
            Err(FieldErrorView::Duplicate("maxplaytime"@))
        } else {
            Ok(GameDetailsFieldsView { max_play_time: Some(x), ..f })
        },
        GameDetailsValue::MinAge(x) => if f.min_age is Some {
            Err(FieldErrorView::Duplicate("minage"@))
        } else {
            Ok(GameDetailsFieldsView { min_age: Some(x), ..f })
        },
        GameDetailsValue::Statistics(x) => if f.stats is Some {
            Err(FieldErrorView::Duplicate("statistics"@))
        } else {
            Ok(GameDetailsFieldsView { stats: Some(x), ..f })
        },
        GameDetailsValue::Versions(x) => if f.versions is Some {
            Err(FieldErrorView::Duplicate("versions"@))
        } else {
            Ok(GameDetailsFieldsView { versions: Some(x), ..f })
        },
        GameDetailsValue::Videos(x) => if f.videos is Some {
            Err(FieldErrorView::Duplicate("videos"@))
        } else {
            Ok(GameDetailsFieldsView { videos: Some(x), ..f })
        },
        GameDetailsValue::MarketPlaceListings(x) => if f.marketplace_listings is Some {
            Err(FieldErrorView::Duplicate("marketplacelistings"@))
        } else {
            Ok(GameDetailsFieldsView { marketplace_listings: Some(x), ..f })
        },
        GameDetailsValue::Comments(x) => if f.rating_comments is Some {
            Err(FieldErrorView::Duplicate("comments"@))
        } else {
            Ok(GameDetailsFieldsView { rating_comments: Some(x), ..f })
        },
        GameDetailsValue::Name(t, x) => match t {
            NameType::Primary => if f.name is Some {
                Err(FieldErrorView::Duplicate("name type=\"primary\""@))
            } else {
                Ok(GameDetailsFieldsView { name: Some(x), ..f })
            },
            NameType::Alternate => Ok(GameDetailsFieldsView { alternate_names: f.alternate_names.push(x), ..f }),
        },
        GameDetailsValue::Link(t, id, x) => match t {
            ItemType::BoardGameExpansion => Ok(GameDetailsFieldsView { expansion_links: f.expansion_links.push(Game { id, name: x }), ..f }),
            ItemType::BoardGameAccessory => Ok(GameDetailsFieldsView { accessories: f.accessories.push(GameAccessory { id, name: x }), ..f }),
            ItemType::BoardGameDesigner => Ok(GameDetailsFieldsView { designers: f.designers.push(GameDesigner { id, name: x }), ..f }),
            ItemType::BoardGamePublisher => Ok(GameDetailsFieldsView { publishers: f.publishers.push(GamePublisher { id, name: x }), ..f }),
            ItemType::BoardGameArtist => Ok(GameDetailsFieldsView { artists: f.artists.push(GameArtist { id, name: x }), ..f }),
            ItemType::BoardGameFamily => Ok(GameDetailsFieldsView { game_families: f.game_families.push(GameFamilyName { id, name: x }), ..f }),
            ItemType::BoardGameCategory => Ok(GameDetailsFieldsView { categories: f.categories.push(GameCategory { id, name: x }), ..f }),
            ItemType::BoardGameMechanic => Ok(GameDetailsFieldsView { mechanics: f.mechanics.push(GameMechanic { id, name: x }), ..f }),
            ItemType::BoardGameCompilation => Ok(GameDetailsFieldsView { compilations: f.compilations.push(GameCompilation { id, name: x }), ..f }),
            ItemType::BoardGameImplementation => Ok(GameDetailsFieldsView { reimplementations: f.reimplementations.push(GameImplementation { id, name: x }), ..f }),
            _ => Err(FieldErrorView::Custom(unexpected_link_message(t, "game info"@))),
        },
    }
}

/// The key under which a value is given.
pub open spec fn details_value_key<F, D>(v: GameDetailsValue<F, D>) -> GameDetailsField {
    match v {
        GameDetailsValue::Id(..) => GameDetailsField::Id,
        GameDetailsValue::Type(..) => GameDetailsField::Type,
        GameDetailsValue::Thumbnail(..) => GameDetailsField::Thumbnail,
        GameDetailsValue::Image(..) => GameDetailsField::Image,
        GameDetailsValue::Description(..) => GameDetailsField::Description,
        GameDetailsValue::YearPublished(..) => GameDetailsField::YearPublished,
        GameDetailsValue::MinPlayers(..) => GameDetailsField::MinPlayers,
        GameDetailsValue::MaxPlayers(..) => GameDetailsField::MaxPlayers,
        GameDetailsValue::PlayingTime(..) => GameDetailsField::PlayingTime,
        GameDetailsValue::MinPlayTime(..) => GameDetailsField::MinPlayTime,
        GameDetailsValue::MaxPlayTime(..) => GameDetailsField::MaxPlayTime,
        GameDetailsValue::MinAge(..) => GameDetailsField::MinAge,
        GameDetailsValue::Statistics(..) => GameDetailsField::Statistics,
        GameDetailsValue::Versions(..) => GameDetailsField::Versions,
        GameDetailsValue::Videos(..) => GameDetailsField::Videos,
        GameDetailsValue::MarketPlaceListings(..) => GameDetailsField::MarketPlaceListings,
        GameDetailsValue::Comments(..) => GameDetailsField::Comments,
        GameDetailsValue::Name(..) => GameDetailsField::Name,
        GameDetailsValue::Link(..) => GameDetailsField::Link,
    }
}

/// Law: the check made when a key of a game is read refuses exactly what taking its
/// value would refuse as given twice: when the check fails, taking the value fails alike.
pub proof fn law_details_key_check_agrees<F, D>(f: GameDetailsFieldsView<F, D>, v: GameDetailsValue<F, D>)
    ensures
        details_key_check(f, details_value_key(v)) matches Err(e) ==> details_accept(f, v)
            == Err::<GameDetailsFieldsView<F, D>, FieldErrorView>(e),
{
}

impl<F, D> GameDetailsFields<F, D> {
    /// No field read yet.
    pub fn new() -> (r: Self)
        ensures
            r@ == (GameDetailsFieldsView::<F, D> {
                id: None,
                game_type: None,
                thumbnail: None,
                image: None,
                description: None,
                year_published: None,
                min_players: None,
                max_players: None,
                playing_time: None,
                min_play_time: None,
                max_play_time: None,
                min_age: None,
                stats: None,
                versions: None,
                videos: None,
                marketplace_listings: None,
                rating_comments: None,
                name: None,
                suggested_player_count: None,
                suggested_player_age: None,
                suggested_language_dependence: None,
                alternate_names: Seq::<String>::empty(),
                categories: Seq::<GameCategory>::empty(),
                mechanics: Seq::<GameMechanic>::empty(),
                game_families: Seq::<GameFamilyName>::empty(),
                expansion_links: Seq::<Game>::empty(),
                accessories: Seq::<GameAccessory>::empty(),
                compilations: Seq::<GameCompilation>::empty(),
                reimplementations: Seq::<GameImplementation>::empty(),
                designers: Seq::<GameDesigner>::empty(),
                artists: Seq::<GameArtist>::empty(),
                publishers: Seq::<GamePublisher>::empty(),
            }),
    {
        GameDetailsFields {
            id: None,
            game_type: None,
            thumbnail: None,
            image: None,
            description: None,
            year_published: None,
            min_players: None,
            max_players: None,
            playing_time: None,
            min_play_time: None,
            max_play_time: None,
            min_age: None,
            stats: None,
            versions: None,
            videos: None,
            marketplace_listings: None,
            rating_comments: None,
            name: None,
            suggested_player_count: None,
            suggested_player_age: None,
            suggested_language_dependence: None,
            alternate_names: Vec::new(),
            categories: Vec::new(),
            mechanics: Vec::new(),
            game_families: Vec::new(),
            expansion_links: Vec::new(),
            accessories: Vec::new(),
            compilations: Vec::new(),
            reimplementations: Vec::new(),
            designers: Vec::new(),
            artists: Vec::new(),
            publishers: Vec::new(),
        }
    }

    /// Checks that a key may come next, before its value is read.
    pub fn check_key(&self, key: GameDetailsField) -> (r: Result<(), FieldError>)
        ensures
            result_view(r) == details_key_check(self@, key),
    {
        match key {
            GameDetailsField::Id => vacant(&self.id, "id"),
            GameDetailsField::Type => vacant(&self.game_type, "type"),
            GameDetailsField::Thumbnail => vacant(&self.thumbnail, "thumbnail"),
            GameDetailsField::Image => vacant(&self.image, "image"),
            GameDetailsField::Description => vacant(&self.description, "description"),
            GameDetailsField::YearPublished => vacant(&self.year_published, "yearpublished"),
            GameDetailsField::MinPlayers => vacant(&self.min_players, "minplayers"),
            GameDetailsField::MaxPlayers => vacant(&self.max_players, "maxplayers"),
            GameDetailsField::PlayingTime => vacant(&self.playing_time, "playingtime"),
            GameDetailsField::MinPlayTime => vacant(&self.min_play_time, "minplaytime"),
            GameDetailsField::MaxPlayTime => vacant(&self.max_play_time, "maxplaytime"),
            GameDetailsField::MinAge => vacant(&self.min_age, "minage"),
            GameDetailsField::Statistics => vacant(&self.stats, "statistics"),
            GameDetailsField::Versions => vacant(&self.versions, "versions"),
            GameDetailsField::Videos => vacant(&self.videos, "videos"),
            GameDetailsField::MarketPlaceListings => vacant(&self.marketplace_listings, "marketplacelistings"),
            GameDetailsField::Comments => vacant(&self.rating_comments, "comments"),
            GameDetailsField::Poll => Ok(()),
            GameDetailsField::Name => Ok(()),
            GameDetailsField::Link => Ok(()),
        }
    }

    /// Takes the value of one more field.
    pub fn accept(&mut self, value: GameDetailsValue<F, D>) -> (r: Result<(), FieldError>)
        ensures
            match details_accept(old(self)@, value) {
                Ok(f) => r is Ok && final(self)@ == f,
                Err(e) => r matches Err(x) && x@ == e && final(self)@ == old(self)@,
            },
    {
        match value {
            GameDetailsValue::Id(x) => set_once(&mut self.id, x, "id"),
            GameDetailsValue::Type(x) => set_once(&mut self.game_type, x, "type"),
            GameDetailsValue::Thumbnail(x) => set_once(&mut self.thumbnail, x, "thumbnail"),
            GameDetailsValue::Image(x) => set_once(&mut self.image, x, "image"),
            GameDetailsValue::Description(x) => set_once(&mut self.description, x, "description"),
            GameDetailsValue::YearPublished(x) => set_once(&mut self.year_published, x, "yearpublished"),
            GameDetailsValue::MinPlayers(x) => set_once(&mut self.min_players, x, "minplayers"),
            GameDetailsValue::MaxPlayers(x) => set_once(&mut self.max_players, x, "maxplayers"),
            GameDetailsValue::PlayingTime(x) => set_once(&mut self.playing_time, x, "playingtime"),
            GameDetailsValue::MinPlayTime(x) => set_once(&mut self.min_play_time, x, "minplaytime"),
            GameDetailsValue::MaxPlayTime(x) => set_once(&mut self.max_play_time, x, "maxplaytime"),
            GameDetailsValue::MinAge(x) => set_once(&mut self.min_age, x, "minage"),
            GameDetailsValue::Statistics(x) => set_once(&mut self.stats, x, "statistics"),
            GameDetailsValue::Versions(x) => set_once(&mut self.versions, x, "versions"),
            GameDetailsValue::Videos(x) => set_once(&mut self.videos, x, "videos"),
            GameDetailsValue::MarketPlaceListings(x) => set_once(&mut self.marketplace_listings, x, "marketplacelistings"),
            GameDetailsValue::Comments(x) => set_once(&mut self.rating_comments, x, "comments"),
            GameDetailsValue::Name(t, x) => match t {
                NameType::Primary => set_once(&mut self.name, x, "name type=\"primary\""),
                NameType::Alternate => {
                    self.alternate_names.push(x);
                    Ok(())
                },
            },
            GameDetailsValue::Link(t, id, x) => match t {
                ItemType::BoardGameExpansion => {
                    self.expansion_links.push(Game { id, name: x });
                    Ok(())
                },
                ItemType::BoardGameAccessory => {
                    self.accessories.push(GameAccessory { id, name: x });
                    Ok(())
                },
                ItemType::BoardGameDesigner => {
                    self.designers.push(GameDesigner { id, name: x });
                    Ok(())
                },
                ItemType::BoardGamePublisher => {
                    self.publishers.push(GamePublisher { id, name: x });
                    Ok(())
                },
                ItemType::BoardGameArtist => {
                    self.artists.push(GameArtist { id, name: x });
                    Ok(())
                },
                ItemType::BoardGameFamily => {
                    self.game_families.push(GameFamilyName { id, name: x });
                    Ok(())
                },
                ItemType::BoardGameCategory => {
                    self.categories.push(GameCategory { id, name: x });
                    Ok(())
                },
                ItemType::BoardGameMechanic => {
                    self.mechanics.push(GameMechanic { id, name: x });
                    Ok(())
                },
                ItemType::BoardGameCompilation => {
                    self.compilations.push(GameCompilation { id, name: x });
                    Ok(())
                },
                ItemType::BoardGameImplementation => {
                    self.reimplementations.push(GameImplementation { id, name: x });
                    Ok(())
                },
                _ => Err(unexpected_link(t, "game info")),
            },
        }
    }

    /// Takes a `poll` field: the player count poll, the player age poll or the language
    /// dependence poll, told apart by their names; each may be given once.
    pub fn accept_poll(&mut self, poll: Poll) -> (r: Result<(), FieldError>)
        ensures
            poll.name@ == "suggested_numplayers"@ ==> if old(self)@.suggested_player_count is Some {
                result_view(r) == Err::<(), FieldErrorView>(
                    FieldErrorView::Duplicate("poll name=\"suggested_numplayers\""@),
                ) && final(self)@ == old(self)@
            } else {
                match player_count_poll_error(poll) {
                    Some(m) => result_view(r) == Err::<(), FieldErrorView>(FieldErrorView::Custom(m))
                        && final(self)@ == old(self)@,
                    None => r is Ok && final(self)@ == (GameDetailsFieldsView {
                        suggested_player_count: final(self)@.suggested_player_count,
                        ..old(self)@
                    }) && (final(self)@.suggested_player_count matches Some(p) && player_count_poll_of(poll, p)),
                }
            },
            poll.name@ == "suggested_playerage"@ ==> if old(self)@.suggested_player_age is Some {
                result_view(r) == Err::<(), FieldErrorView>(
                    FieldErrorView::Duplicate("poll name=\"suggested_playerage\""@),
                ) && final(self)@ == old(self)@
            } else {
                match player_age_poll_error(poll) {
                    Some(m) => result_view(r) == Err::<(), FieldErrorView>(FieldErrorView::Custom(m))
                        && final(self)@ == old(self)@,
                    None => r is Ok && final(self)@ == (GameDetailsFieldsView {
                        suggested_player_age: final(self)@.suggested_player_age,
                        ..old(self)@
                    }) && (final(self)@.suggested_player_age matches Some(p) && player_age_poll_of(poll, p)),
                }
            },
            poll.name@ == "language_dependence"@ ==> if old(self)@.suggested_language_dependence is Some {
                result_view(r) == Err::<(), FieldErrorView>(
                    FieldErrorView::Duplicate("poll name=\"language_dependence\""@),
                ) && final(self)@ == old(self)@
            } else {
                match language_poll_error(poll) {
                    Some(m) => result_view(r) == Err::<(), FieldErrorView>(FieldErrorView::Custom(m))
                        && final(self)@ == old(self)@,
                    None => r is Ok && final(self)@ == (GameDetailsFieldsView {
                        suggested_language_dependence: final(self)@.suggested_language_dependence,
                        ..old(self)@
                    }) && (final(self)@.suggested_language_dependence matches Some(p) && language_poll_of(poll, p)),
                }
            },
            poll.name@ != "suggested_numplayers"@ && poll.name@ != "suggested_playerage"@
                && poll.name@ != "language_dependence"@ ==> result_view(r) == Err::<(), FieldErrorView>(
                FieldErrorView::Custom("unexpected poll name `"@ + poll.name@ + "`"@),
            ) && final(self)@ == old(self)@,
    {
        proof {
            reveal_strlit("suggested_numplayers");
            reveal_strlit("suggested_playerage");
            reveal_strlit("language_dependence");
            assert("suggested_numplayers"@ != "suggested_playerage"@) by {
                assert("suggested_numplayers"@[10] != "suggested_playerage"@[10]);
            }
            assert("suggested_numplayers"@ != "language_dependence"@) by {
                assert("suggested_numplayers"@[0] != "language_dependence"@[0]);
            }
            assert("suggested_playerage"@ != "language_dependence"@) by {
                assert("suggested_playerage"@[0] != "language_dependence"@[0]);
            }
        }
        if same_text(poll.name.as_str(), "suggested_numplayers") {
            if self.suggested_player_count.is_some() {
                return Err(FieldError::Duplicate("poll name=\"suggested_numplayers\""));
            }
            match SuggestedPlayerCountPoll::try_from(poll) {
                Ok(p) => {
                    self.suggested_player_count = Some(p);
                    Ok(())
                },
                Err(m) => Err(FieldError::Custom(m)),
            }
        } else if same_text(poll.name.as_str(), "suggested_playerage") {
            if self.suggested_player_age.is_some() {
                return Err(FieldError::Duplicate("poll name=\"suggested_playerage\""));
            }
            match SuggestedPlayerAgePoll::try_from(poll) {
                Ok(p) => {
                    self.suggested_player_age = Some(p);
                    Ok(())
                },
                Err(m) => Err(FieldError::Custom(m)),
            }
        } else if same_text(poll.name.as_str(), "language_dependence") {
            if self.suggested_language_dependence.is_some() {
                return Err(FieldError::Duplicate("poll name=\"language_dependence\""));
            }
            match LanguageDependencePoll::try_from(poll) {
                Ok(p) => {
                    self.suggested_language_dependence = Some(p);
                    Ok(())
                },
                Err(m) => Err(FieldError::Custom(m)),
            }
        } else {
            let mut m = crate::text::concat("unexpected poll name `", poll.name.as_str());
            crate::text::push_str(&mut m, "`");
            Err(FieldError::Custom(m))
        }
    }

    /// The finished value, once every field that must be given was read.
    pub fn finish(self) -> (r: Result<GameDetails<F, D>, FieldError>)
        ensures
            match details_finish_error(self@) {
                Some(e) => r matches Err(x) && x@ == e,
                None => r matches Ok(x) && details_built(x, self@),
            },
    {
        let ghost f = self@;
        let id = match self.id {
            Some(x) => x,
            None => {
                return Err(FieldError::Missing("id"));
            },
        };
        let game_type = match self.game_type {
            Some(x) => x,
            None => {
                return Err(FieldError::Missing("type"));
            },
        };
        let thumbnail = match self.thumbnail {
            Some(x) => x,
            None => {
                return Err(FieldError::Missing("thumbnail"));
            },
        };
        let image = match self.image {
            Some(x) => x,
            None => {
                return Err(FieldError::Missing("image"));
            },
        };
        let name = match self.name {
            Some(x) => x,
            None => {
                return Err(FieldError::Missing("name"));
            },
        };
        let description = match self.description {
            Some(x) => x,
            None => {
                return Err(FieldError::Missing("description"));
            },
        };
        let year_published = match self.year_published {
            Some(x) => x,
            None => {
                return Err(FieldError::Missing("yearpublished"));
            },
        };
        let min_players = match self.min_players {
            Some(x) => x,
            None => {
                return Err(FieldError::Missing("minplayers"));
            },
        };
        let max_players = match self.max_players {
            Some(x) => x,
            None => {
                return Err(FieldError::Missing("maxplayers"));
            },
        };
        let playing_time = match self.playing_time {
            Some(x) => x,
            None => {
                return Err(FieldError::Missing("playingtime"));
            },
        };
        let min_play_time = match self.min_play_time {
            Some(x) => x,
            None => {
                return Err(FieldError::Missing("minplaytime"));
            },
        };
        let max_play_time = match self.max_play_time {
            Some(x) => x,
            None => {
                return Err(FieldError::Missing("maxplaytime"));
            },
        };
        let min_age = match self.min_age {
            Some(x) => x,
            None => {
                return Err(FieldError::Missing("minage"));
            },
        };
        let suggested_player_count = match self.suggested_player_count {
            Some(x) => x,
            None => {
                return Err(FieldError::Missing("poll name=\"suggested_numplayers\""));
            },
        };
        let suggested_player_age = match self.suggested_player_age {
            Some(x) => x,
            None => {
                return Err(FieldError::Missing("poll name=\"suggested_playerage\""));
            },
        };
        let suggested_language_dependence = match self.suggested_language_dependence {
            Some(x) => x,
            None => {
                return Err(FieldError::Missing("poll name=\"language_dependence\""));
            },
        };
        let stats = match self.stats {
            Some(x) => x,
            None => {
                return Err(FieldError::Missing("statistics"));
            },
        };
        let (expansions, expansion_for) = match game_type {
            GameType::BoardGame => (self.expansion_links, Vec::new()),
            GameType::BoardGameExpansion => (Vec::new(), self.expansion_links),
        };
        Ok(GameDetails {
            id: id,
            game_type: game_type,
            name: name,
            alternate_names: self.alternate_names,
            description: description,
            image: image,
            thumbnail: thumbnail,
            year_published: year_published,
            min_players: min_players,
            max_players: max_players,
            suggested_player_count: suggested_player_count,
            playing_time: playing_time,
            min_play_time: min_play_time,
            max_play_time: max_play_time,
            min_age: min_age,
            suggested_player_age: suggested_player_age,
            suggested_language_dependence: suggested_language_dependence,
            categories: self.categories,
            mechanics: self.mechanics,
            game_families: self.game_families,
            expansions: expansions,
            expansion_for: expansion_for,
            accessories: self.accessories,
            compilations: self.compilations,
            reimplementations: self.reimplementations,
            designers: self.designers,
            artists: self.artists,
            publishers: self.publishers,
            stats: stats,
            versions: match self.versions { Some(v) => v, None => Vec::new() },
            videos: match self.videos { Some(v) => v, None => Vec::new() },
            marketplace_listings: match self.marketplace_listings { Some(v) => v, None => Vec::new() },
            rating_comments: self.rating_comments,
        })
    }
}

/// Law: a designer link adds that designer, an artist link that artist and a publisher link
/// that publisher, each at the end of its own list, leaving the other two lists as they were;
/// and a finished game lists the designers, artists and publishers read, in their order.
pub proof fn law_details_people_links<F, D>(f: GameDetailsFieldsView<F, D>, id: u64, name: String, x: GameDetails<F, D>)
    ensures
        details_accept(f, GameDetailsValue::Link(ItemType::BoardGameDesigner, id, name)) matches Ok(g)
            && g.designers == f.designers.push(GameDesigner { id, name }) && g.artists == f.artists
            && g.publishers == f.publishers,
        details_accept(f, GameDetailsValue::Link(ItemType::BoardGameArtist, id, name)) matches Ok(g)
            && g.artists == f.artists.push(GameArtist { id, name }) && g.designers == f.designers
            && g.publishers == f.publishers,
        details_accept(f, GameDetailsValue::Link(ItemType::BoardGamePublisher, id, name)) matches Ok(g)
            && g.publishers == f.publishers.push(GamePublisher { id, name }) && g.designers
            == f.designers && g.artists == f.artists,
        details_built(x, f) ==> x.designers@ == f.designers && x.artists@ == f.artists
            && x.publishers@ == f.publishers,
{
}

/// Law: each value of a game goes to its own field, once, a second one being refused as given
/// twice, an alternate name and each kind of link to its own list; and a finished game takes
/// each field from the value read for it.
pub proof fn law_details_values_go_to_their_fields<F, D>(f: GameDetailsFieldsView<F, D>, x: GameDetails<F, D>)
    ensures
        forall|v: u64| #[trigger] details_accept(f, GameDetailsValue::Id(v)) == if f.id is Some {
            Err::<GameDetailsFieldsView<F, D>, FieldErrorView>(FieldErrorView::Duplicate("id"@))
        } else {
            Ok::<GameDetailsFieldsView<F, D>, FieldErrorView>((GameDetailsFieldsView { id: Some(v), ..f }))
        },
        forall|v: GameType| #[trigger] details_accept(f, GameDetailsValue::Type(v)) == if f.game_type is Some {
            Err::<GameDetailsFieldsView<F, D>, FieldErrorView>(FieldErrorView::Duplicate("type"@))
        } else {
            Ok::<GameDetailsFieldsView<F, D>, FieldErrorView>((GameDetailsFieldsView { game_type: Some(v), ..f }))
        },
        forall|v: String| #[trigger] details_accept(f, GameDetailsValue::Thumbnail(v)) == if f.thumbnail is Some {
            Err::<GameDetailsFieldsView<F, D>, FieldErrorView>(FieldErrorView::Duplicate("thumbnail"@))
        } else {
            Ok::<GameDetailsFieldsView<F, D>, FieldErrorView>((GameDetailsFieldsView { thumbnail: Some(v), ..f }))
        },
        forall|v: String| #[trigger] details_accept(f, GameDetailsValue::Image(v)) == if f.image is Some {
            Err::<GameDetailsFieldsView<F, D>, FieldErrorView>(FieldErrorView::Duplicate("image"@))
        } else {
            Ok::<GameDetailsFieldsView<F, D>, FieldErrorView>((GameDetailsFieldsView { image: Some(v), ..f }))
        },
        forall|v: String| #[trigger] details_accept(f, GameDetailsValue::Description(v)) == if f.description is Some {
            Err::<GameDetailsFieldsView<F, D>, FieldErrorView>(FieldErrorView::Duplicate("description"@))
        } else {
            Ok::<GameDetailsFieldsView<F, D>, FieldErrorView>((GameDetailsFieldsView { description: Some(v), ..f }))
        },
        forall|v: i64| #[trigger] details_accept(f, GameDetailsValue::YearPublished(v)) == if f.year_published is Some {
            Err::<GameDetailsFieldsView<F, D>, FieldErrorView>(FieldErrorView::Duplicate("yearpublished"@))
        } else {
            Ok::<GameDetailsFieldsView<F, D>, FieldErrorView>((GameDetailsFieldsView { year_published: Some(v), ..f }))
        },
        forall|v: u64| #[trigger] details_accept(f, GameDetailsValue::MinPlayers(v)) == if f.min_players is Some {
            Err::<GameDetailsFieldsView<F, D>, FieldErrorView>(FieldErrorView::Duplicate("minplayers"@))
        } else {
            Ok::<GameDetailsFieldsView<F, D>, FieldErrorView>((GameDetailsFieldsView { min_players: Some(v), ..f }))
        },
        forall|v: u64| #[trigger] details_accept(f, GameDetailsValue::MaxPlayers(v)) == if f.max_players is Some {
            Err::<GameDetailsFieldsView<F, D>, FieldErrorView>(FieldErrorView::Duplicate("maxplayers"@))
        } else {
            Ok::<GameDetailsFieldsView<F, D>, FieldErrorView>((GameDetailsFieldsView { max_players: Some(v), ..f }))
        },
        forall|v: i64| #[trigger] details_accept(f, GameDetailsValue::PlayingTime(v)) == if f.playing_time is Some {
            Err::<GameDetailsFieldsView<F, D>, FieldErrorView>(FieldErrorView::Duplicate("playingtime"@))
        } else {
            Ok::<GameDetailsFieldsView<F, D>, FieldErrorView>((GameDetailsFieldsView { playing_time: Some(v), ..f }))
        },
        forall|v: i64| #[trigger] details_accept(f, GameDetailsValue::MinPlayTime(v)) == if f.min_play_time is Some {
            Err::<GameDetailsFieldsView<F, D>, FieldErrorView>(FieldErrorView::Duplicate("minplaytime"@))
        } else {
            Ok::<GameDetailsFieldsView<F, D>, FieldErrorView>((GameDetailsFieldsView { min_play_time: Some(v), ..f }))
        },
        forall|v: i64| #[trigger] details_accept(f, GameDetailsValue::MaxPlayTime(v)) == if f.max_play_time is Some {
            Err::<GameDetailsFieldsView<F, D>, FieldErrorView>(FieldErrorView::Duplicate("maxplaytime"@))
        } else {
            Ok::<GameDetailsFieldsView<F, D>, FieldErrorView>((GameDetailsFieldsView { max_play_time: Some(v), ..f }))
        },
        forall|v: u64| #[trigger] details_accept(f, GameDetailsValue::MinAge(v)) == if f.min_age is Some {
            Err::<GameDetailsFieldsView<F, D>, FieldErrorView>(FieldErrorView::Duplicate("minage"@))
        } else {
            Ok::<GameDetailsFieldsView<F, D>, FieldErrorView>((GameDetailsFieldsView { min_age: Some(v), ..f }))
        },
        forall|v: GameStats<F>| #[trigger] details_accept(f, GameDetailsValue::Statistics(v)) == if f.stats is Some {
            Err::<GameDetailsFieldsView<F, D>, FieldErrorView>(FieldErrorView::Duplicate("statistics"@))
        } else {
            Ok::<GameDetailsFieldsView<F, D>, FieldErrorView>((GameDetailsFieldsView { stats: Some(v), ..f }))
        },
        forall|v: Vec<GameVersion<F>>| #[trigger] details_accept(f, GameDetailsValue::Versions(v)) == if f.versions is Some {
            Err::<GameDetailsFieldsView<F, D>, FieldErrorView>(FieldErrorView::Duplicate("versions"@))
        } else {
            Ok::<GameDetailsFieldsView<F, D>, FieldErrorView>((GameDetailsFieldsView { versions: Some(v), ..f }))
        },
        forall|v: Vec<Video<D>>| #[trigger] details_accept(f, GameDetailsValue::Videos(v)) == if f.videos is Some {
            Err::<GameDetailsFieldsView<F, D>, FieldErrorView>(FieldErrorView::Duplicate("videos"@))
        } else {
            Ok::<GameDetailsFieldsView<F, D>, FieldErrorView>((GameDetailsFieldsView { videos: Some(v), ..f }))
        },
        forall|v: Vec<MarketplaceListing<D>>| #[trigger] details_accept(f, GameDetailsValue::MarketPlaceListings(v)) == if f.marketplace_listings is Some {
            Err::<GameDetailsFieldsView<F, D>, FieldErrorView>(FieldErrorView::Duplicate("marketplacelistings"@))
        } else {
            Ok::<GameDetailsFieldsView<F, D>, FieldErrorView>((GameDetailsFieldsView { marketplace_listings: Some(v), ..f }))
        },
        forall|v: RatingCommentPage<F>| #[trigger] details_accept(f, GameDetailsValue::Comments(v)) == if f.rating_comments is Some {
            Err::<GameDetailsFieldsView<F, D>, FieldErrorView>(FieldErrorView::Duplicate("comments"@))
        } else {
            Ok::<GameDetailsFieldsView<F, D>, FieldErrorView>((GameDetailsFieldsView { rating_comments: Some(v), ..f }))
        },
        forall|id: u64, name: String| #[trigger] details_accept(f, GameDetailsValue::Link(ItemType::BoardGameExpansion, id, name)) == Ok::<GameDetailsFieldsView<F, D>, FieldErrorView>((GameDetailsFieldsView { expansion_links: f.expansion_links.push(Game { id, name }), ..f })),
        forall|id: u64, name: String| #[trigger] details_accept(f, GameDetailsValue::Link(ItemType::BoardGameAccessory, id, name)) == Ok::<GameDetailsFieldsView<F, D>, FieldErrorView>((GameDetailsFieldsView { accessories: f.accessories.push(GameAccessory { id, name }), ..f })),
        forall|id: u64, name: String| #[trigger] details_accept(f, GameDetailsValue::Link(ItemType::BoardGameDesigner, id, name)) == Ok::<GameDetailsFieldsView<F, D>, FieldErrorView>((GameDetailsFieldsView { designers: f.designers.push(GameDesigner { id, name }), ..f })),
        forall|id: u64, name: String| #[trigger] details_accept(f, GameDetailsValue::Link(ItemType::BoardGamePublisher, id, name)) == Ok::<GameDetailsFieldsView<F, D>, FieldErrorView>((GameDetailsFieldsView { publishers: f.publishers.push(GamePublisher { id, name }), ..f })),
        forall|id: u64, name: String| #[trigger] details_accept(f, GameDetailsValue::Link(ItemType::BoardGameArtist, id, name)) == Ok::<GameDetailsFieldsView<F, D>, FieldErrorView>((GameDetailsFieldsView { artists: f.artists.push(GameArtist { id, name }), ..f })),
        forall|id: u64, name: String| #[trigger] details_accept(f, GameDetailsValue::Link(ItemType::BoardGameFamily, id, name)) == Ok::<GameDetailsFieldsView<F, D>, FieldErrorView>((GameDetailsFieldsView { game_families: f.game_families.push(GameFamilyName { id, name }), ..f })),
        forall|id: u64, name: String| #[trigger] details_accept(f, GameDetailsValue::Link(ItemType::BoardGameCategory, id, name)) == Ok::<GameDetailsFieldsView<F, D>, FieldErrorView>((GameDetailsFieldsView { categories: f.categories.push(GameCategory { id, name }), ..f })),
        forall|id: u64, name: String| #[trigger] details_accept(f, GameDetailsValue::Link(ItemType::BoardGameMechanic, id, name)) == Ok::<GameDetailsFieldsView<F, D>, FieldErrorView>((GameDetailsFieldsView { mechanics: f.mechanics.push(GameMechanic { id, name }), ..f })),
        forall|id: u64, name: String| #[trigger] details_accept(f, GameDetailsValue::Link(ItemType::BoardGameCompilation, id, name)) == Ok::<GameDetailsFieldsView<F, D>, FieldErrorView>((GameDetailsFieldsView { compilations: f.compilations.push(GameCompilation { id, name }), ..f })),
        forall|id: u64, name: String| #[trigger] details_accept(f, GameDetailsValue::Link(ItemType::BoardGameImplementation, id, name)) == Ok::<GameDetailsFieldsView<F, D>, FieldErrorView>((GameDetailsFieldsView { reimplementations: f.reimplementations.push(GameImplementation { id, name }), ..f })),
        details_built(x, f) ==> (x.id == f.id.unwrap()),
        details_built(x, f) ==> (x.game_type == f.game_type.unwrap()),
        details_built(x, f) ==> (x.name == f.name.unwrap()),
        details_built(x, f) ==> (x.alternate_names@ == f.alternate_names),
        details_built(x, f) ==> (x.description == f.description.unwrap()),
        details_built(x, f) ==> (x.image == f.image.unwrap()),
        details_built(x, f) ==> (x.thumbnail == f.thumbnail.unwrap()),
        details_built(x, f) ==> (x.year_published == f.year_published.unwrap()),
        details_built(x, f) ==> (x.min_players == f.min_players.unwrap()),
        details_built(x, f) ==> (x.max_players == f.max_players.unwrap()),
        details_built(x, f) ==> (x.suggested_player_count == f.suggested_player_count.unwrap()),
        details_built(x, f) ==> (x.playing_time == f.playing_time.unwrap()),
        details_built(x, f) ==> (x.min_play_time == f.min_play_time.unwrap()),
        details_built(x, f) ==> (x.max_play_time == f.max_play_time.unwrap()),
        details_built(x, f) ==> (x.min_age == f.min_age.unwrap()),
        details_built(x, f) ==> (x.suggested_player_age == f.suggested_player_age.unwrap()),
        details_built(x, f) ==> (x.suggested_language_dependence == f.suggested_language_dependence.unwrap()),
        details_built(x, f) ==> (x.categories@ == f.categories),
        details_built(x, f) ==> (x.mechanics@ == f.mechanics),
        details_built(x, f) ==> (x.game_families@ == f.game_families),
        details_built(x, f) ==> ((f.game_type.unwrap() == GameType::BoardGame ==> x.expansions@ == f.expansion_links && x.expansion_for@.len() == 0) && (f.game_type.unwrap() == GameType::BoardGameExpansion ==> x.expansions@.len() == 0 && x.expansion_for@ == f.expansion_links)),
        details_built(x, f) ==> (x.accessories@ == f.accessories),
        details_built(x, f) ==> (x.compilations@ == f.compilations),
        details_built(x, f) ==> (x.reimplementations@ == f.reimplementations),
        details_built(x, f) ==> (x.designers@ == f.designers),
        details_built(x, f) ==> (x.artists@ == f.artists),
        details_built(x, f) ==> (x.publishers@ == f.publishers),
        details_built(x, f) ==> (x.stats == f.stats.unwrap()),
        details_built(x, f) ==> (match f.versions { Some(v) => x.versions == v, None => x.versions@.len() == 0 }),
        details_built(x, f) ==> (match f.videos { Some(v) => x.videos == v, None => x.videos@.len() == 0 }),
        details_built(x, f) ==> (match f.marketplace_listings { Some(v) => x.marketplace_listings == v, None => x.marketplace_listings@.len() == 0 }),
        details_built(x, f) ==> (x.rating_comments == f.rating_comments),
{
}

} // verus!
