//! The items of a user's collection, with their status, statistics and ratings.
use vstd::prelude::*;

use crate::collection::BaseCollectionQuery;
use crate::decode::{result_view, set_once, vacant, FieldError, FieldErrorView};
use crate::models::CollectionItemType;
use crate::ranks::GameFamilyRank;
use crate::text::{decimal, owned, push_str, write_decimal};
use crate::version::GameVersion;
use crate::wishlist::WishlistPriority;

verus! {

broadcast use vstd::string::group_string_axioms;

/// The status of an item in a user's collection; any number of them may hold at once.
///
/// `D` is the type of a date and time.
#[derive(Clone, Debug)]
pub struct CollectionItemStatus<D> {
    /// The user owns the item.
    pub own: bool,
    /// The user owned the item before.
    pub previously_owned: bool,
    /// The user wants to trade the item away.
    pub for_trade: bool,
    /// The user wants the item in a trade.
    pub want_in_trade: bool,
    /// The user wants to play the item.
    pub want_to_play: bool,
    /// The user wants to buy the item.
    pub want_to_buy: bool,
    /// The user pre-ordered the item.
    pub pre_ordered: bool,
    /// The item is on the user's wishlist.
    pub wishlist: bool,
    /// The priority of the item on the wishlist, if it has one.
    pub wishlist_priority: Option<WishlistPriority>,
    /// When the status was last modified.
    pub last_modified: D,
}

/// The rating a user gave an item, with the averages of all users.
///
/// `F` is the type of a rating: the API gives them as floating point numbers.
#[derive(Clone, Debug)]
pub struct CollectionItemRatingBrief<F> {
    /// The rating from 0 to 10 the user gave, if any.
    pub user_rating: Option<F>,
    /// The mean rating of all users.
    pub average: F,
    /// The bayesian average rating.
    pub bayesian_average: F,
}

/// The rating a user gave an item, with the statistics of all users' ratings and the item's
/// ranks.
///
/// `F` is the type of a rating: the API gives them as floating point numbers.
#[derive(Clone, Debug)]
pub struct CollectionItemRating<F> {
    /// The rating from 0 to 10 the user gave, if any.
    pub user_rating: Option<F>,
    /// The number of users who rated the item.
    pub users_rated: u64,
    /// The mean rating of all users.
    pub average: F,
    /// The bayesian average rating.
    pub bayesian_average: F,
    /// The standard deviation of the ratings.
    pub standard_deviation: F,
    /// The median rating, which the API always gives as 0.
    pub median: F,
    /// The ranks of the item within each of its families.
    pub ranks: Vec<GameFamilyRank<F>>,
}

/// Statistics of an item in a collection, in brief.
///
/// Playing times are in minutes. Accessories have no player counts, which are then 0.
#[derive(Clone, Debug)]
pub struct CollectionItemStatsBrief<F> {
    /// The minimum number of players.
    pub min_players: u32,
    /// The maximum number of players.
    pub max_players: u32,
    /// The shortest playing time.
    pub min_playtime: u32,
    /// The longest playing time.
    pub max_playtime: u32,
    /// The suggested playing time.
    pub playing_time: u32,
    /// The number of users who own the item.
    pub owned_by: u64,
    /// The ratings of the item.
    pub rating: CollectionItemRatingBrief<F>,
}

/// Statistics of an item in a collection.
///
/// Playing times are in minutes. Accessories have no player counts, which are then 0.
#[derive(Clone, Debug)]
pub struct CollectionItemStats<F> {
    /// The minimum number of players.
    pub min_players: u32,
    /// The maximum number of players.
    pub max_players: u32,
    /// The shortest playing time.
    pub min_playtime: u32,
    /// The longest playing time.
    pub max_playtime: u32,
    /// The suggested playing time.
    pub playing_time: u32,
    /// The number of users who own the item.
    pub owned_by: u64,
    /// The ratings and ranks of the item.
    pub rating: CollectionItemRating<F>,
}

/// An item of a collection in brief form.
#[derive(Clone, Debug)]
pub struct CollectionItemBrief<F, D> {
    /// The ID of the item.
    pub id: u64,
    /// The ID of the item within the collection.
    pub collection_id: u64,
    /// Whether the item is a game, an expansion or an accessory.
    pub item_type: CollectionItemType,
    /// The name of the item.
    pub name: String,
    /// The status of the item in the collection.
    pub status: CollectionItemStatus<D>,
    /// Brief statistics of the item.
    pub stats: CollectionItemStatsBrief<F>,
    /// The version of the item, when asked for and the item is a version of another.
    pub version: Option<GameVersion<F>>,
}

/// An item of a collection.
#[derive(Clone, Debug)]
pub struct CollectionItem<F, D> {
    /// The ID of the item.
    pub id: u64,
    /// The ID of the item within the collection.
    pub collection_id: u64,
    /// Whether the item is a game, an expansion or an accessory.
    pub item_type: CollectionItemType,
    /// The name of the item.
    pub name: String,
    /// The year the item was published.
    pub year_published: i64,
    /// A link to a jpg image for the item.
    pub image: String,
    /// A link to a jpg thumbnail image for the item.
    pub thumbnail: String,
    /// The status of the item in the collection.
    pub status: CollectionItemStatus<D>,
    /// The number of times the user played the item.
    pub number_of_plays: u64,
    /// Statistics of the item.
    pub stats: CollectionItemStats<F>,
    /// The version of the item, when asked for and the item is a version of another.
    pub version: Option<GameVersion<F>>,
}

impl<F, D> CollectionItemBrief<F, D> {
    /// The base query for a collection of brief items: the brief flag is set.
    pub fn base_query<'q>(username: &'q str) -> (b: BaseCollectionQuery<'q>)
        ensures
            b.user() == username@,
            b.is_brief(),
    {
        BaseCollectionQuery::new(username, true)
    }
}

impl<F: Copy, D> CollectionItem<F, D> {
    /// The base query for a collection of full items: the brief flag is unset.
    pub fn base_query<'q>(username: &'q str) -> (b: BaseCollectionQuery<'q>)
        ensures
            b.user() == username@,
            !b.is_brief(),
    {
        BaseCollectionQuery::new(username, false)
    }

    /// The brief statistics of this item: its player counts, playing times, owners and
    /// ratings, without the ranks.
    pub fn get_stats(&self) -> (s: CollectionItemStatsBrief<F>)
        ensures
            s.min_players == self.stats.min_players,
            s.max_players == self.stats.max_players,
            s.min_playtime == self.stats.min_playtime,
            s.max_playtime == self.stats.max_playtime,
            s.playing_time == self.stats.playing_time,
            s.owned_by == self.stats.owned_by,
            s.rating.user_rating == self.stats.rating.user_rating,
            s.rating.average == self.stats.rating.average,
            s.rating.bayesian_average == self.stats.rating.bayesian_average,
    {
        CollectionItemStatsBrief {
            min_players: self.stats.min_players,
            max_players: self.stats.max_players,
            min_playtime: self.stats.min_playtime,
            max_playtime: self.stats.max_playtime,
            playing_time: self.stats.playing_time,
            owned_by: self.stats.owned_by,
            rating: CollectionItemRatingBrief {
                user_rating: self.stats.rating.user_rating,
                average: self.stats.rating.average,
                bayesian_average: self.stats.rating.bayesian_average,
            },
        }
    }
}

/// The message for a version list that does not hold exactly one version.
pub open spec fn version_count_message(id: u64, n: nat) -> Seq<char> {
    "invalid number of versions found for game ID "@ + decimal(id as nat)
        + ", expected \"1\", but got "@ + decimal(n)
}

/// The one version of a version list, which must hold one.
///
/// The list is never empty: the API gives no version list at all for an item without one.
pub fn single_version<F>(versions: Vec<GameVersion<F>>) -> (r: Result<Option<GameVersion<F>>, FieldError>)
    requires
        versions.len() > 0,
    ensures
        versions.len() == 1 ==> r == Ok::<Option<GameVersion<F>>, FieldError>(Some(versions@[0])),
        versions.len() > 1 ==> (r matches Err(e) && e@ == FieldErrorView::Custom(
            version_count_message(versions@[0].id, versions.len() as nat),
        )),
{
    let mut versions = versions;
    if versions.len() == 1 {
        let v = versions.remove(0);
        return Ok(Some(v));
    }
    let mut m = owned("invalid number of versions found for game ID ");
    write_decimal(&mut m, versions[0].id);
    push_str(&mut m, ", expected \"1\", but got ");
    write_decimal(&mut m, versions.len() as u64);
    Err(FieldError::Custom(m))
}

/// The first field of a brief collection rating that must be given and was not, if any.
pub open spec fn rating_brief_missing<F>(f: CollectionItemRatingBriefFieldsView<F>) -> Option<Seq<char>> {
    if f.user_rating is None {
        Some("value"@)
    } else if f.average is None {
        Some("average"@)
    } else if f.bayesian_average is None {
        Some("bayesaverage"@)
    } else {
        None
    }
}

/// The error that finishing a brief collection rating gives, if any.
pub open spec fn rating_brief_finish_error<F>(f: CollectionItemRatingBriefFieldsView<F>) -> Option<FieldErrorView> {
    match rating_brief_missing(f) {
        Some(n) => Some(FieldErrorView::Missing(n)),
        None => None,
    }
}

/// Whether a brief collection rating is the one that these fields make.
pub open spec fn rating_brief_built<F>(x: CollectionItemRatingBrief<F>, f: CollectionItemRatingBriefFieldsView<F>) -> bool {
    &&& x.user_rating == f.user_rating.unwrap()
    &&& x.average == f.average.unwrap()
    &&& x.bayesian_average == f.bayesian_average.unwrap()
}

/// The kinds of field of a brief collection rating, as the keys of its XML object.
#[derive(Clone, Copy, Debug, PartialEq, Eq, Structural)]
pub enum CollectionItemRatingBriefField {
    /// The `value` field.
    Value,
    /// The `average` field.
    Average,
    /// The `bayesaverage` field.
    BayesAverage,
}

/// The value of a field of a brief collection rating, read from the XML.
#[derive(Clone, Debug)]
pub enum CollectionItemRatingBriefValue<F> {
    /// The `value` field: the user's rating, `None` for `N/A`.
    Value(Option<F>),
    /// The `average` field: the mean rating.
    Average(F),
    /// The `bayesaverage` field: the bayesian average rating.
    BayesAverage(F),
}

/// The fields of a brief collection rating read so far.
#[derive(Clone, Debug)]
pub struct CollectionItemRatingBriefFields<F> {
    user_rating: Option<Option<F>>,
    average: Option<F>,
    bayesian_average: Option<F>,
}

/// The fields of a brief collection rating read so far, as mathematical values.
#[verifier::ext_equal]
pub ghost struct CollectionItemRatingBriefFieldsView<F> {
    /// The `value` field, once read: the user's rating, `None` for `N/A`.
    pub user_rating: Option<Option<F>>,
    /// The `average` field, once read: the mean rating.
    pub average: Option<F>,
    /// The `bayesaverage` field, once read: the bayesian average rating.
    pub bayesian_average: Option<F>,
}

impl<F> View for CollectionItemRatingBriefFields<F> {
    type V = CollectionItemRatingBriefFieldsView<F>;

    closed spec fn view(&self) -> CollectionItemRatingBriefFieldsView<F> {
        CollectionItemRatingBriefFieldsView {
            user_rating: self.user_rating,
            average: self.average,
            bayesian_average: self.bayesian_average,
        }
    }
}

/// Whether a key may come next: a field that may be given once is refused when it was
/// given already.
pub open spec fn rating_brief_key_check<F>(f: CollectionItemRatingBriefFieldsView<F>, key: CollectionItemRatingBriefField) -> Result<(), FieldErrorView> {
    match key {
        CollectionItemRatingBriefField::Value => if f.user_rating is Some {
            Err(FieldErrorView::Duplicate("value"@))
        } else {
            Ok(())
        },
        CollectionItemRatingBriefField::Average => if f.average is Some {
            Err(FieldErrorView::Duplicate("average"@))
        } else {
            Ok(())
        },
        CollectionItemRatingBriefField::BayesAverage => if f.bayesian_average is Some {
            Err(FieldErrorView::Duplicate("bayesaverage"@))
        } else {
            Ok(())
        },
    }
}

/// The fields after one more value is read, or the error that the value brings.
pub open spec fn rating_brief_accept<F>(f: CollectionItemRatingBriefFieldsView<F>, value: CollectionItemRatingBriefValue<F>) -> Result<CollectionItemRatingBriefFieldsView<F>, FieldErrorView> {
    match value {
        CollectionItemRatingBriefValue::Value(x) => if f.user_rating is Some {
            Err(FieldErrorView::Duplicate("value"@))
        } else {
            Ok(CollectionItemRatingBriefFieldsView { user_rating: Some(x), ..f })
        },
        CollectionItemRatingBriefValue::Average(x) => if f.average is Some {
            Err(FieldErrorView::Duplicate("average"@))
        } else {
            Ok(CollectionItemRatingBriefFieldsView { average: Some(x), ..f })
        },
        CollectionItemRatingBriefValue::BayesAverage(x) => if f.bayesian_average is Some {
            Err(FieldErrorView::Duplicate("bayesaverage"@))
        } else {
            Ok(CollectionItemRatingBriefFieldsView { bayesian_average: Some(x), ..f })
        },
    }
}

/// The key under which a value is given.
pub open spec fn rating_brief_value_key<F>(v: CollectionItemRatingBriefValue<F>) -> CollectionItemRatingBriefField {
    match v {
        CollectionItemRatingBriefValue::Value(..) => CollectionItemRatingBriefField::Value,
        CollectionItemRatingBriefValue::Average(..) => CollectionItemRatingBriefField::Average,
        CollectionItemRatingBriefValue::BayesAverage(..) => CollectionItemRatingBriefField::BayesAverage,
    }
}

/// Law: the check made when a key of a brief collection rating is read refuses exactly what taking its
/// value would refuse as given twice: when the check fails, taking the value fails alike.
pub proof fn law_rating_brief_key_check_agrees<F>(f: CollectionItemRatingBriefFieldsView<F>, v: CollectionItemRatingBriefValue<F>)
    ensures
        rating_brief_key_check(f, rating_brief_value_key(v)) matches Err(e) ==> rating_brief_accept(f, v)
            == Err::<CollectionItemRatingBriefFieldsView<F>, FieldErrorView>(e),
{
}

impl<F> CollectionItemRatingBriefFields<F> {
    /// No field read yet.
    pub fn new() -> (r: Self)
        ensures
            r@ == (CollectionItemRatingBriefFieldsView::<F> {
                user_rating: None,
                average: None,
                bayesian_average: None,
            }),
    {
        CollectionItemRatingBriefFields {
            user_rating: None,
            average: None,
            bayesian_average: None,
        }
    }

    /// Checks that a key may come next, before its value is read.
    pub fn check_key(&self, key: CollectionItemRatingBriefField) -> (r: Result<(), FieldError>)
        ensures
            result_view(r) == rating_brief_key_check(self@, key),
    {
        match key {
            CollectionItemRatingBriefField::Value => vacant(&self.user_rating, "value"),
            CollectionItemRatingBriefField::Average => vacant(&self.average, "average"),
            CollectionItemRatingBriefField::BayesAverage => vacant(&self.bayesian_average, "bayesaverage"),
        }
    }

    /// Takes the value of one more field.
    pub fn accept(&mut self, value: CollectionItemRatingBriefValue<F>) -> (r: Result<(), FieldError>)
        ensures
            match rating_brief_accept(old(self)@, value) {
                Ok(f) => r is Ok && final(self)@ == f,
                Err(e) => r matches Err(x) && x@ == e && final(self)@ == old(self)@,
            },
    {
        match value {
            CollectionItemRatingBriefValue::Value(x) => set_once(&mut self.user_rating, x, "value"),
            CollectionItemRatingBriefValue::Average(x) => set_once(&mut self.average, x, "average"),
            CollectionItemRatingBriefValue::BayesAverage(x) => set_once(&mut self.bayesian_average, x, "bayesaverage"),
        }
    }

    /// The finished value, once every field that must be given was read.
    pub fn finish(self) -> (r: Result<CollectionItemRatingBrief<F>, FieldError>)
        ensures
            match rating_brief_finish_error(self@) {
                Some(e) => r matches Err(x) && x@ == e,
                None => r matches Ok(x) && rating_brief_built(x, self@),
            },
    {
        let ghost f = self@;
        let user_rating = match self.user_rating {
            Some(x) => x,
            None => {
                return Err(FieldError::Missing("value"));
            },
        };
        let average = match self.average {
            Some(x) => x,
            None => {
                return Err(FieldError::Missing("average"));
            },
        };
        let bayesian_average = match self.bayesian_average {
            Some(x) => x,
            None => {
                return Err(FieldError::Missing("bayesaverage"));
            },
        };
        Ok(CollectionItemRatingBrief {
            user_rating: user_rating,
            average: average,
            bayesian_average: bayesian_average,
        })
    }
}

/// The first field of a collection rating that must be given and was not, if any.
pub open spec fn rating_missing<F>(f: CollectionItemRatingFieldsView<F>) -> Option<Seq<char>> {
    if f.user_rating is None {
        Some("value"@)
    } else if f.users_rated is None {
        Some("usersrated"@)
    } else if f.average is None {
        Some("average"@)
    } else if f.bayesian_average is None {
        Some("bayesaverage"@)
    } else if f.standard_deviation is None {
        Some("stddev"@)
    } else if f.median is None {
        Some("median"@)
    } else if f.ranks is None {
        Some("ranks"@)
    } else {
        None
    }
}

/// The error that finishing a collection rating gives, if any.
pub open spec fn rating_finish_error<F>(f: CollectionItemRatingFieldsView<F>) -> Option<FieldErrorView> {
    match rating_missing(f) {
        Some(n) => Some(FieldErrorView::Missing(n)),
        None => None,
    }
}

/// Whether a collection rating is the one that these fields make.
pub open spec fn rating_built<F>(x: CollectionItemRating<F>, f: CollectionItemRatingFieldsView<F>) -> bool {
    &&& x.user_rating == f.user_rating.unwrap()
    &&& x.users_rated == f.users_rated.unwrap()
    &&& x.average == f.average.unwrap()
    &&& x.bayesian_average == f.bayesian_average.unwrap()
    &&& x.standard_deviation == f.standard_deviation.unwrap()
    &&& x.median == f.median.unwrap()
    &&& x.ranks == f.ranks.unwrap()
}

/// The kinds of field of a collection rating, as the keys of its XML object.
#[derive(Clone, Copy, Debug, PartialEq, Eq, Structural)]
pub enum CollectionItemRatingField {
    /// The `value` field.
    Value,
    /// The `usersrated` field.
    UsersRated,
    /// The `average` field.
    Average,
    /// The `bayesaverage` field.
    Bayesaverage,
    /// The `stddev` field.
    StdDev,
    /// The `median` field.
    Median,
    /// The `ranks` field.
    Ranks,
}

/// The value of a field of a collection rating, read from the XML.
#[derive(Clone, Debug)]
pub enum CollectionItemRatingValue<F> {
    /// The `value` field: the user's rating, `None` for `N/A`.
    Value(Option<F>),
    /// The `usersrated` field: the number of users who rated it.
    UsersRated(u64),
    /// The `average` field: the mean rating.
    Average(F),
    /// The `bayesaverage` field: the bayesian average rating.
    Bayesaverage(F),
    /// The `stddev` field: the standard deviation.
    StdDev(F),
    /// The `median` field: the median rating.
    Median(F),
    /// The `ranks` field: the ranks.
    Ranks(Vec<GameFamilyRank<F>>),
}

/// The fields of a collection rating read so far.
#[derive(Clone, Debug)]
pub struct CollectionItemRatingFields<F> {
    user_rating: Option<Option<F>>,
    users_rated: Option<u64>,
    average: Option<F>,
    bayesian_average: Option<F>,
    standard_deviation: Option<F>,
    median: Option<F>,
    ranks: Option<Vec<GameFamilyRank<F>>>,
}

/// The fields of a collection rating read so far, as mathematical values.
#[verifier::ext_equal]
pub ghost struct CollectionItemRatingFieldsView<F> {
    /// The `value` field, once read: the user's rating, `None` for `N/A`.
    pub user_rating: Option<Option<F>>,
    /// The `usersrated` field, once read: the number of users who rated it.
    pub users_rated: Option<u64>,
    /// The `average` field, once read: the mean rating.
    pub average: Option<F>,
    /// The `bayesaverage` field, once read: the bayesian average rating.
    pub bayesian_average: Option<F>,
    /// The `stddev` field, once read: the standard deviation.
    pub standard_deviation: Option<F>,
    /// The `median` field, once read: the median rating.
    pub median: Option<F>,
    /// The `ranks` field, once read: the ranks.
    pub ranks: Option<Vec<GameFamilyRank<F>>>,
}

impl<F> View for CollectionItemRatingFields<F> {
    type V = CollectionItemRatingFieldsView<F>;

    closed spec fn view(&self) -> CollectionItemRatingFieldsView<F> {
        CollectionItemRatingFieldsView {
            user_rating: self.user_rating,
            users_rated: self.users_rated,
            average: self.average,
            bayesian_average: self.bayesian_average,
            standard_deviation: self.standard_deviation,
            median: self.median,
            ranks: self.ranks,
        }
    }
}

/// Whether a key may come next: a field that may be given once is refused when it was
/// given already.
pub open spec fn rating_key_check<F>(f: CollectionItemRatingFieldsView<F>, key: CollectionItemRatingField) -> Result<(), FieldErrorView> {
    match key {
        CollectionItemRatingField::Value => if f.user_rating is Some {
            Err(FieldErrorView::Duplicate("value"@))
        } else {
            Ok(())
        },
        CollectionItemRatingField::UsersRated => if f.users_rated is Some {
            Err(FieldErrorView::Duplicate("usersrated"@))
        } else {
            Ok(())
        },
        CollectionItemRatingField::Average => if f.average is Some {
            Err(FieldErrorView::Duplicate("average"@))
        } else {
            Ok(())
        },
        CollectionItemRatingField::Bayesaverage => if f.bayesian_average is Some {
            Err(FieldErrorView::Duplicate("bayesaverage"@))
        } else {
            Ok(())
        },
        CollectionItemRatingField::StdDev => if f.standard_deviation is Some {
            Err(FieldErrorView::Duplicate("stddev"@))
        } else {
            Ok(())
        },
        CollectionItemRatingField::Median => if f.median is Some {
            Err(FieldErrorView::Duplicate("median"@))
        } else {
            Ok(())
        },
        CollectionItemRatingField::Ranks => if f.ranks is Some {
            Err(FieldErrorView::Duplicate("ranks"@))
        } else {
            Ok(())
        },
    }
}

/// The fields after one more value is read, or the error that the value brings.
pub open spec fn rating_accept<F>(f: CollectionItemRatingFieldsView<F>, value: CollectionItemRatingValue<F>) -> Result<CollectionItemRatingFieldsView<F>, FieldErrorView> {
    match value {
        CollectionItemRatingValue::Value(x) => if f.user_rating is Some {
            Err(FieldErrorView::Duplicate("value"@))
        } else {
            Ok(CollectionItemRatingFieldsView { user_rating: Some(x), ..f })
        },
        CollectionItemRatingValue::UsersRated(x) => if f.users_rated is Some {
            Err(FieldErrorView::Duplicate("usersrated"@))
        } else {
            Ok(CollectionItemRatingFieldsView { users_rated: Some(x), ..f })
        },
        CollectionItemRatingValue::Average(x) => if f.average is Some {
            Err(FieldErrorView::Duplicate("average"@))
        } else {
            Ok(CollectionItemRatingFieldsView { average: Some(x), ..f })
        },
        CollectionItemRatingValue::Bayesaverage(x) => if f.bayesian_average is Some {
            Err(FieldErrorView::Duplicate("bayesaverage"@))
        } else {
            Ok(CollectionItemRatingFieldsView { bayesian_average: Some(x), ..f })
        },
        CollectionItemRatingValue::StdDev(x) => if f.standard_deviation is Some {
            Err(FieldErrorView::Duplicate("stddev"@))
        } else {
            Ok(CollectionItemRatingFieldsView { standard_deviation: Some(x), ..f })
        },
        CollectionItemRatingValue::Median(x) => if f.median is Some {
            Err(FieldErrorView::Duplicate("median"@))
        } else {
            Ok(CollectionItemRatingFieldsView { median: Some(x), ..f })
        },
        CollectionItemRatingValue::Ranks(x) => if f.ranks is Some {
            Err(FieldErrorView::Duplicate("ranks"@))
        } else {
            Ok(CollectionItemRatingFieldsView { ranks: Some(x), ..f })
        },
    }
}

/// The key under which a value is given.
pub open spec fn rating_value_key<F>(v: CollectionItemRatingValue<F>) -> CollectionItemRatingField {
    match v {
        CollectionItemRatingValue::Value(..) => CollectionItemRatingField::Value,
        CollectionItemRatingValue::UsersRated(..) => CollectionItemRatingField::UsersRated,
        CollectionItemRatingValue::Average(..) => CollectionItemRatingField::Average,
        CollectionItemRatingValue::Bayesaverage(..) => CollectionItemRatingField::Bayesaverage,
        CollectionItemRatingValue::StdDev(..) => CollectionItemRatingField::StdDev,
        CollectionItemRatingValue::Median(..) => CollectionItemRatingField::Median,
        CollectionItemRatingValue::Ranks(..) => CollectionItemRatingField::Ranks,
    }
}

/// Law: the check made when a key of a collection rating is read refuses exactly what taking its
/// value would refuse as given twice: when the check fails, taking the value fails alike.
pub proof fn law_rating_key_check_agrees<F>(f: CollectionItemRatingFieldsView<F>, v: CollectionItemRatingValue<F>)
    ensures
        rating_key_check(f, rating_value_key(v)) matches Err(e) ==> rating_accept(f, v)
            == Err::<CollectionItemRatingFieldsView<F>, FieldErrorView>(e),
{
}

impl<F> CollectionItemRatingFields<F> {
    /// No field read yet.
    pub fn new() -> (r: Self)
        ensures
            r@ == (CollectionItemRatingFieldsView::<F> {
                user_rating: None,
                users_rated: None,
                average: None,
                bayesian_average: None,
                standard_deviation: None,
                median: None,
                ranks: None,
            }),
    {
        CollectionItemRatingFields {
            user_rating: None,
            users_rated: None,
            average: None,
            bayesian_average: None,
            standard_deviation: None,
            median: None,
            ranks: None,
        }
    }

    /// Checks that a key may come next, before its value is read.
    pub fn check_key(&self, key: CollectionItemRatingField) -> (r: Result<(), FieldError>)
        ensures
            result_view(r) == rating_key_check(self@, key),
    {
        match key {
            CollectionItemRatingField::Value => vacant(&self.user_rating, "value"),
            CollectionItemRatingField::UsersRated => vacant(&self.users_rated, "usersrated"),
            CollectionItemRatingField::Average => vacant(&self.average, "average"),
            CollectionItemRatingField::Bayesaverage => vacant(&self.bayesian_average, "bayesaverage"),
            CollectionItemRatingField::StdDev => vacant(&self.standard_deviation, "stddev"),
            CollectionItemRatingField::Median => vacant(&self.median, "median"),
            CollectionItemRatingField::Ranks => vacant(&self.ranks, "ranks"),
        }
    }

    /// Takes the value of one more field.
    pub fn accept(&mut self, value: CollectionItemRatingValue<F>) -> (r: Result<(), FieldError>)
        ensures
            match rating_accept(old(self)@, value) {
                Ok(f) => r is Ok && final(self)@ == f,
                Err(e) => r matches Err(x) && x@ == e && final(self)@ == old(self)@,
            },
    {
        match value {
            CollectionItemRatingValue::Value(x) => set_once(&mut self.user_rating, x, "value"),
            CollectionItemRatingValue::UsersRated(x) => set_once(&mut self.users_rated, x, "usersrated"),
            CollectionItemRatingValue::Average(x) => set_once(&mut self.average, x, "average"),
            CollectionItemRatingValue::Bayesaverage(x) => set_once(&mut self.bayesian_average, x, "bayesaverage"),
            CollectionItemRatingValue::StdDev(x) => set_once(&mut self.standard_deviation, x, "stddev"),
            CollectionItemRatingValue::Median(x) => set_once(&mut self.median, x, "median"),
            CollectionItemRatingValue::Ranks(x) => set_once(&mut self.ranks, x, "ranks"),
        }
    }

    /// The finished value, once every field that must be given was read.
    pub fn finish(self) -> (r: Result<CollectionItemRating<F>, FieldError>)
        ensures
            match rating_finish_error(self@) {
                Some(e) => r matches Err(x) && x@ == e,
                None => r matches Ok(x) && rating_built(x, self@),
            },
    {
        let ghost f = self@;
        let user_rating = match self.user_rating {
            Some(x) => x,
            None => {
                return Err(FieldError::Missing("value"));
            },
        };
        let users_rated = match self.users_rated {
            Some(x) => x,
            None => {
                return Err(FieldError::Missing("usersrated"));
            },
        };
        let average = match self.average {
            Some(x) => x,
            None => {
                return Err(FieldError::Missing("average"));
            },
        };
        let bayesian_average = match self.bayesian_average {
            Some(x) => x,
            None => {
                return Err(FieldError::Missing("bayesaverage"));
            },
        };
        let standard_deviation = match self.standard_deviation {
            Some(x) => x,
            None => {
                return Err(FieldError::Missing("stddev"));
            },
        };
        let median = match self.median {
            Some(x) => x,
            None => {
                return Err(FieldError::Missing("median"));
            },
        };
        let ranks = match self.ranks {
            Some(x) => x,
            None => {
                return Err(FieldError::Missing("ranks"));
            },
        };
        Ok(CollectionItemRating {
            user_rating: user_rating,
            users_rated: users_rated,
            average: average,
            bayesian_average: bayesian_average,
            standard_deviation: standard_deviation,
            median: median,
            ranks: ranks,
        })
    }
}

/// Law: each value of a brief collection rating goes to its own field, once, a second one being
/// refused as given twice; and a finished rating takes each field from the value read for it.
pub proof fn law_rating_brief_values_go_to_their_fields<F>(f: CollectionItemRatingBriefFieldsView<F>, x: CollectionItemRatingBrief<F>)
    ensures
        forall|v: Option<F>| #[trigger] rating_brief_accept(f, CollectionItemRatingBriefValue::Value(v)) == if f.user_rating is Some {
            Err::<CollectionItemRatingBriefFieldsView<F>, FieldErrorView>(FieldErrorView::Duplicate("value"@))
        } else {
            Ok::<CollectionItemRatingBriefFieldsView<F>, FieldErrorView>((CollectionItemRatingBriefFieldsView { user_rating: Some(v), ..f }))
        },
        forall|v: F| #[trigger] rating_brief_accept(f, CollectionItemRatingBriefValue::Average(v)) == if f.average is Some {
            Err::<CollectionItemRatingBriefFieldsView<F>, FieldErrorView>(FieldErrorView::Duplicate("average"@))
        } else {
            Ok::<CollectionItemRatingBriefFieldsView<F>, FieldErrorView>((CollectionItemRatingBriefFieldsView { average: Some(v), ..f }))
        },
        forall|v: F| #[trigger] rating_brief_accept(f, CollectionItemRatingBriefValue::BayesAverage(v)) == if f.bayesian_average is Some {
            Err::<CollectionItemRatingBriefFieldsView<F>, FieldErrorView>(FieldErrorView::Duplicate("bayesaverage"@))
        } else {
            Ok::<CollectionItemRatingBriefFieldsView<F>, FieldErrorView>((CollectionItemRatingBriefFieldsView { bayesian_average: Some(v), ..f }))
        },
        rating_brief_built(x, f) ==> (x.user_rating == f.user_rating.unwrap()),
        rating_brief_built(x, f) ==> (x.average == f.average.unwrap()),
        rating_brief_built(x, f) ==> (x.bayesian_average == f.bayesian_average.unwrap()),
{
}

/// Law: each value of a collection rating goes to its own field, once, a second one being
/// refused as given twice; and a finished rating takes each field from the value read for it.
pub proof fn law_rating_values_go_to_their_fields<F>(f: CollectionItemRatingFieldsView<F>, x: CollectionItemRating<F>)
    ensures
        forall|v: Option<F>| #[trigger] rating_accept(f, CollectionItemRatingValue::Value(v)) == if f.user_rating is Some {
            Err::<CollectionItemRatingFieldsView<F>, FieldErrorView>(FieldErrorView::Duplicate("value"@))
        } else {
            Ok::<CollectionItemRatingFieldsView<F>, FieldErrorView>((CollectionItemRatingFieldsView { user_rating: Some(v), ..f }))
        },
        forall|v: u64| #[trigger] rating_accept(f, CollectionItemRatingValue::UsersRated(v)) == if f.users_rated is Some {
            Err::<CollectionItemRatingFieldsView<F>, FieldErrorView>(FieldErrorView::Duplicate("usersrated"@))
        } else {
            Ok::<CollectionItemRatingFieldsView<F>, FieldErrorView>((CollectionItemRatingFieldsView { users_rated: Some(v), ..f }))
        },
        forall|v: F| #[trigger] rating_accept(f, CollectionItemRatingValue::Average(v)) == if f.average is Some {
            Err::<CollectionItemRatingFieldsView<F>, FieldErrorView>(FieldErrorView::Duplicate("average"@))
        } else {
            Ok::<CollectionItemRatingFieldsView<F>, FieldErrorView>((CollectionItemRatingFieldsView { average: Some(v), ..f }))
        },
        forall|v: F| #[trigger] rating_accept(f, CollectionItemRatingValue::Bayesaverage(v)) == if f.bayesian_average is Some {
            Err::<CollectionItemRatingFieldsView<F>, FieldErrorView>(FieldErrorView::Duplicate("bayesaverage"@))
        } else {
            Ok::<CollectionItemRatingFieldsView<F>, FieldErrorView>((CollectionItemRatingFieldsView { bayesian_average: Some(v), ..f }))
        },
        forall|v: F| #[trigger] rating_accept(f, CollectionItemRatingValue::StdDev(v)) == if f.standard_deviation is Some {
            Err::<CollectionItemRatingFieldsView<F>, FieldErrorView>(FieldErrorView::Duplicate("stddev"@))
        } else {
            Ok::<CollectionItemRatingFieldsView<F>, FieldErrorView>((CollectionItemRatingFieldsView { standard_deviation: Some(v), ..f }))
        },
        forall|v: F| #[trigger] rating_accept(f, CollectionItemRatingValue::Median(v)) == if f.median is Some {
            Err::<CollectionItemRatingFieldsView<F>, FieldErrorView>(FieldErrorView::Duplicate("median"@))
        } else {
            Ok::<CollectionItemRatingFieldsView<F>, FieldErrorView>((CollectionItemRatingFieldsView { median: Some(v), ..f }))
        },
        forall|v: Vec<GameFamilyRank<F>>| #[trigger] rating_accept(f, CollectionItemRatingValue::Ranks(v)) == if f.ranks is Some {
            Err::<CollectionItemRatingFieldsView<F>, FieldErrorView>(FieldErrorView::Duplicate("ranks"@))
        } else {
            Ok::<CollectionItemRatingFieldsView<F>, FieldErrorView>((CollectionItemRatingFieldsView { ranks: Some(v), ..f }))
        },
        rating_built(x, f) ==> (x.user_rating == f.user_rating.unwrap()),
        rating_built(x, f) ==> (x.users_rated == f.users_rated.unwrap()),
        rating_built(x, f) ==> (x.average == f.average.unwrap()),
        rating_built(x, f) ==> (x.bayesian_average == f.bayesian_average.unwrap()),
        rating_built(x, f) ==> (x.standard_deviation == f.standard_deviation.unwrap()),
        rating_built(x, f) ==> (x.median == f.median.unwrap()),
        rating_built(x, f) ==> (x.ranks == f.ranks.unwrap()),
{
}

} // verus!
