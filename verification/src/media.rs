//! The media attached to a game: user videos, and marketplace listings of copies for sale.
use vstd::prelude::*;

use crate::decode::{result_view, set_once, vacant, FieldError, FieldErrorView};
use crate::models::User;

verus! {

/// Type of a video about a game.
#[derive(Clone, Copy, Debug, PartialEq, Eq, Structural)]
pub enum VideoCategory {
    /// A review of the game.
    Review,
    /// A play-through session.
    Session,
    /// Strategy or how to play.
    Instructional,
    /// Interviews with people related to the game.
    Interview,
    /// Unboxing the game.
    Unboxing,
    /// Funny videos about the game.
    Humor,
    /// Videos that fit no other category.
    Other,
}

/// A video about a game.
///
/// `D` is the type of the date and time it was posted.
#[derive(Clone, Debug)]
pub struct Video<D> {
    /// ID of the video.
    pub id: u64,
    /// The title of the video.
    pub title: String,
    /// Type of video, such as a play-through or a rules teach.
    pub category: VideoCategory,
    /// Language of the video.
    pub language: String,
    /// Link to the video.
    pub link: String,
    /// Name and ID of the user who uploaded the video.
    pub uploader: User,
    /// The date and time the video was posted.
    pub post_date: D,
}

/// The price of a game in a marketplace listing.
#[derive(Clone, Debug)]
pub struct Price {
    /// The currency of the price.
    pub currency: String,
    /// The amount, as the text the API gives, for the caller to read as suits it.
    pub value: String,
}

/// The condition of a game for sale, from the worst to the best.
#[derive(Clone, Copy, Debug, PartialEq, Eq, Structural)]
pub enum GameCondition {
    /// Good enough to play, no better.
    Acceptable,
    /// Good condition.
    Good,
    /// Very good condition.
    VeryGood,
    /// Used, but as good as new.
    LikeNew,
    /// New and unused.
    New,
}

/// A copy of a game for sale on the site.
///
/// `D` is the type of the date and time it was listed.
#[derive(Clone, Debug)]
pub struct MarketplaceListing<D> {
    /// The date and time the copy was listed.
    pub list_date: D,
    /// The price of the copy.
    pub price: Price,
    /// The condition of the copy.
    pub condition: GameCondition,
    /// Notes of the seller.
    pub notes: String,
    /// Link to buy the copy on the site.
    pub link: String,
}

/// The first field of a video that must be given and was not, if any.
pub open spec fn video_missing<D>(f: VideoFieldsView<D>) -> Option<Seq<char>> {
    if f.id is None {
        Some("id"@)
    } else if f.title is None {
        Some("title"@)
    } else if f.category is None {
        Some("category"@)
    } else if f.language is None {
        Some("language"@)
    } else if f.link is None {
        Some("link"@)
    } else if f.username is None {
        Some("username"@)
    } else if f.user_id is None {
        Some("userid"@)
    } else if f.post_date is None {
        Some("postdate"@)
    } else {
        None
    }
}

/// The error that finishing a video gives, if any.
pub open spec fn video_finish_error<D>(f: VideoFieldsView<D>) -> Option<FieldErrorView> {
    match video_missing(f) {
        Some(n) => Some(FieldErrorView::Missing(n)),
        None => None,
    }
}

/// Whether a video is the one that these fields make.
pub open spec fn video_built<D>(x: Video<D>, f: VideoFieldsView<D>) -> bool {
    &&& x.id == f.id.unwrap()
    &&& x.title == f.title.unwrap()
    &&& x.category == f.category.unwrap()
    &&& x.language == f.language.unwrap()
    &&& x.link == f.link.unwrap()
    &&& x.uploader == User { user_id: f.user_id.unwrap(), username: f.username.unwrap() }
    &&& x.post_date == f.post_date.unwrap()
}

/// The kinds of field of a video, as the keys of its XML object.
#[derive(Clone, Copy, Debug, PartialEq, Eq, Structural)]
pub enum VideoField {
    /// The `id` field.
    Id,
    /// The `title` field.
    Title,
    /// The `category` field.
    Category,
    /// The `language` field.
    Language,
    /// The `link` field.
    Link,
    /// The `username` field.
    Username,
    /// The `userid` field.
    UserId,
    /// The `postdate` field.
    PostDate,
}

/// The value of a field of a video, read from the XML.
#[derive(Clone, Debug)]
pub enum VideoValue<D> {
    /// The `id` field: its ID.
    Id(u64),
    /// The `title` field: its title.
    Title(String),
    /// The `category` field: its category.
    Category(VideoCategory),
    /// The `language` field: its language.
    Language(String),
    /// The `link` field: its link.
    Link(String),
    /// The `username` field: the name of the uploader.
    Username(String),
    /// The `userid` field: the ID of the uploader.
    UserId(u64),
    /// The `postdate` field: when it was posted.
    PostDate(D),
}

/// The fields of a video read so far.
#[derive(Clone, Debug)]
pub struct VideoFields<D> {
    id: Option<u64>,
    title: Option<String>,
    category: Option<VideoCategory>,
    language: Option<String>,
    link: Option<String>,
    username: Option<String>,
    user_id: Option<u64>,
    post_date: Option<D>,
}

/// The fields of a video read so far, as mathematical values.
#[verifier::ext_equal]
pub ghost struct VideoFieldsView<D> {
    /// The `id` field, once read: its ID.
    pub id: Option<u64>,
    /// The `title` field, once read: its title.
    pub title: Option<String>,
    /// The `category` field, once read: its category.
    pub category: Option<VideoCategory>,
    /// The `language` field, once read: its language.
    pub language: Option<String>,
    /// The `link` field, once read: its link.
    pub link: Option<String>,
    /// The `username` field, once read: the name of the uploader.
    pub username: Option<String>,
    /// The `userid` field, once read: the ID of the uploader.
    pub user_id: Option<u64>,
    /// The `postdate` field, once read: when it was posted.
    pub post_date: Option<D>,
}

impl<D> View for VideoFields<D> {
    type V = VideoFieldsView<D>;

    closed spec fn view(&self) -> VideoFieldsView<D> {
        VideoFieldsView {
            id: self.id,
            title: self.title,
            category: self.category,
            language: self.language,
            link: self.link,
            username: self.username,
            user_id: self.user_id,
            post_date: self.post_date,
        }
    }
}

/// Whether a key may come next: a field that may be given once is refused when it was
/// given already.
pub open spec fn video_key_check<D>(f: VideoFieldsView<D>, key: VideoField) -> Result<(), FieldErrorView> {
    match key {
        VideoField::Id => if f.id is Some {
            Err(FieldErrorView::Duplicate("id"@))
        } else {
            Ok(())
        },
        VideoField::Title => if f.title is Some {
            Err(FieldErrorView::Duplicate("title"@))
        } else {
            Ok(())
        },
        VideoField::Category => if f.category is Some {
            Err(FieldErrorView::Duplicate("category"@))
        } else {
            Ok(())
        },
        VideoField::Language => if f.language is Some {
            Err(FieldErrorView::Duplicate("language"@))
        } else {
            Ok(())
        },
        VideoField::Link => if f.link is Some {
            Err(FieldErrorView::Duplicate("link"@))
        } else {
            Ok(())
        },
        VideoField::Username => if f.username is Some {
            Err(FieldErrorView::Duplicate("username"@))
        } else {
            Ok(())
        },
        VideoField::UserId => if f.user_id is Some {
            Err(FieldErrorView::Duplicate("userid"@))
        } else {
            Ok(())
        },
        VideoField::PostDate => if f.post_date is Some {
            Err(FieldErrorView::Duplicate("postdate"@))
        } else {
            Ok(())
        },
    }
}

/// The fields after one more value is read, or the error that the value brings.
pub open spec fn video_accept<D>(f: VideoFieldsView<D>, value: VideoValue<D>) -> Result<VideoFieldsView<D>, FieldErrorView> {
    match value {
        VideoValue::Id(x) => if f.id is Some {
            Err(FieldErrorView::Duplicate("id"@))
        } else {
            Ok(VideoFieldsView { id: Some(x), ..f })
        },
        VideoValue::Title(x) => if f.title is Some {
            Err(FieldErrorView::Duplicate("title"@))
        } else {
            Ok(VideoFieldsView { title: Some(x), ..f })
        },
        VideoValue::Category(x) => if f.category is Some {
            Err(FieldErrorView::Duplicate("category"@))
        } else {
            Ok(VideoFieldsView { category: Some(x), ..f })
        },
        VideoValue::Language(x) => if f.language is Some {
            Err(FieldErrorView::Duplicate("language"@))
        } else {
            Ok(VideoFieldsView { language: Some(x), ..f })
        },
        VideoValue::Link(x) => if f.link is Some {
            Err(FieldErrorView::Duplicate("link"@))
        } else {
            Ok(VideoFieldsView { link: Some(x), ..f })
        },
        VideoValue::Username(x) => if f.username is Some {
            Err(FieldErrorView::Duplicate("username"@))
        } else {
            Ok(VideoFieldsView { username: Some(x), ..f })
        },
        VideoValue::UserId(x) => if f.user_id is Some {
            Err(FieldErrorView::Duplicate("userid"@))
        } else {
            Ok(VideoFieldsView { user_id: Some(x), ..f })
        },
        VideoValue::PostDate(x) => if f.post_date is Some {
            Err(FieldErrorView::Duplicate("postdate"@))
        } else {
            Ok(VideoFieldsView { post_date: Some(x), ..f })
        },
    }
}

/// The key under which a value is given.
pub open spec fn video_value_key<D>(v: VideoValue<D>) -> VideoField {
    match v {
        VideoValue::Id(..) => VideoField::Id,
        VideoValue::Title(..) => VideoField::Title,
        VideoValue::Category(..) => VideoField::Category,
        VideoValue::Language(..) => VideoField::Language,
        VideoValue::Link(..) => VideoField::Link,
        VideoValue::Username(..) => VideoField::Username,
        VideoValue::UserId(..) => VideoField::UserId,
        VideoValue::PostDate(..) => VideoField::PostDate,
    }
}

/// Law: the check made when a key of a video is read refuses exactly what taking its
/// value would refuse as given twice: when the check fails, taking the value fails alike.
pub proof fn law_video_key_check_agrees<D>(f: VideoFieldsView<D>, v: VideoValue<D>)
    ensures
        video_key_check(f, video_value_key(v)) matches Err(e) ==> video_accept(f, v)
            == Err::<VideoFieldsView<D>, FieldErrorView>(e),
{
}

impl<D> VideoFields<D> {
    /// No field read yet.
    pub fn new() -> (r: Self)
        ensures
            r@ == (VideoFieldsView::<D> {
                id: None,
                title: None,
                category: None,
                language: None,
                link: None,
                username: None,
                user_id: None,
                post_date: None,
            }),
    {
        VideoFields {
            id: None,
            title: None,
            category: None,
            language: None,
            link: None,
            username: None,
            user_id: None,
            post_date: None,
        }
    }

    /// Checks that a key may come next, before its value is read.
    pub fn check_key(&self, key: VideoField) -> (r: Result<(), FieldError>)
        ensures
            result_view(r) == video_key_check(self@, key),
    {
        match key {
            VideoField::Id => vacant(&self.id, "id"),
            VideoField::Title => vacant(&self.title, "title"),
            VideoField::Category => vacant(&self.category, "category"),
            VideoField::Language => vacant(&self.language, "language"),
            VideoField::Link => vacant(&self.link, "link"),
            VideoField::Username => vacant(&self.username, "username"),
            VideoField::UserId => vacant(&self.user_id, "userid"),
            VideoField::PostDate => vacant(&self.post_date, "postdate"),
        }
    }

    /// Takes the value of one more field.
    pub fn accept(&mut self, value: VideoValue<D>) -> (r: Result<(), FieldError>)
        ensures
            match video_accept(old(self)@, value) {
                Ok(f) => r is Ok && final(self)@ == f,
                Err(e) => r matches Err(x) && x@ == e && final(self)@ == old(self)@,
            },
    {
        match value {
            VideoValue::Id(x) => set_once(&mut self.id, x, "id"),
            VideoValue::Title(x) => set_once(&mut self.title, x, "title"),
            VideoValue::Category(x) => set_once(&mut self.category, x, "category"),
            VideoValue::Language(x) => set_once(&mut self.language, x, "language"),
            VideoValue::Link(x) => set_once(&mut self.link, x, "link"),
            VideoValue::Username(x) => set_once(&mut self.username, x, "username"),
            VideoValue::UserId(x) => set_once(&mut self.user_id, x, "userid"),
            VideoValue::PostDate(x) => set_once(&mut self.post_date, x, "postdate"),
        }
    }

    /// The finished value, once every field that must be given was read.
    pub fn finish(self) -> (r: Result<Video<D>, FieldError>)
        ensures
            match video_finish_error(self@) {
                Some(e) => r matches Err(x) && x@ == e,
                None => r matches Ok(x) && video_built(x, self@),
            },
    {
        let ghost f = self@;
        let id = match self.id {
            Some(x) => x,
            None => {
                return Err(FieldError::Missing("id"));
            },
        };
        let title = match self.title {
            Some(x) => x,
            None => {
                return Err(FieldError::Missing("title"));
            },
        };
        let category = match self.category {
            Some(x) => x,
            None => {
                return Err(FieldError::Missing("category"));
            },
        };
        let language = match self.language {
            Some(x) => x,
            None => {
                return Err(FieldError::Missing("language"));
            },
        };
        let link = match self.link {
            Some(x) => x,
            None => {
                return Err(FieldError::Missing("link"));
            },
        };
        let username = match self.username {
            Some(x) => x,
            None => {
                return Err(FieldError::Missing("username"));
            },
        };
        let user_id = match self.user_id {
            Some(x) => x,
            None => {
                return Err(FieldError::Missing("userid"));
            },
        };
        let post_date = match self.post_date {
            Some(x) => x,
            None => {
                return Err(FieldError::Missing("postdate"));
            },
        };
        Ok(Video {
            id: id,
            title: title,
            category: category,
            language: language,
            link: link,
            uploader: User { user_id, username },
            post_date: post_date,
        })
    }
}

/// The first field of a marketplace listing that must be given and was not, if any.
pub open spec fn listing_missing<D>(f: MarketplaceListingFieldsView<D>) -> Option<Seq<char>> {
    if f.list_date is None {
        Some("listdate"@)
    } else if f.price is None {
        Some("price"@)
    } else if f.condition is None {
        Some("condition"@)
    } else if f.notes is None {
        Some("notes"@)
    } else if f.link is None {
        Some("link"@)
    } else {
        None
    }
}

/// The error that finishing a marketplace listing gives, if any.
pub open spec fn listing_finish_error<D>(f: MarketplaceListingFieldsView<D>) -> Option<FieldErrorView> {
    match listing_missing(f) {
        Some(n) => Some(FieldErrorView::Missing(n)),
        None => None,
    }
}

/// Whether a marketplace listing is the one that these fields make.
pub open spec fn listing_built<D>(x: MarketplaceListing<D>, f: MarketplaceListingFieldsView<D>) -> bool {
    &&& x.list_date == f.list_date.unwrap()
    &&& x.price == f.price.unwrap()
    &&& x.condition == f.condition.unwrap()
    &&& x.notes == f.notes.unwrap()
    &&& x.link == f.link.unwrap()
}

/// The kinds of field of a marketplace listing, as the keys of its XML object.
#[derive(Clone, Copy, Debug, PartialEq, Eq, Structural)]
pub enum MarketplaceListingField {
    /// The `listdate` field.
    ListDate,
    /// The `price` field.
    Price,
    /// The `condition` field.
    Condition,
    /// The `notes` field.
    Notes,
    /// The `link` field.
    Link,
}

/// The value of a field of a marketplace listing, read from the XML.
#[derive(Clone, Debug)]
pub enum MarketplaceListingValue<D> {
    /// The `listdate` field: when it was listed.
    ListDate(D),
    /// The `price` field: its price.
    Price(Price),
    /// The `condition` field: the condition of the copy.
    Condition(GameCondition),
    /// The `notes` field: the notes of the seller.
    Notes(String),
    /// The `link` field: the link to the listing.
    Link(String),
}

/// The fields of a marketplace listing read so far.
#[derive(Clone, Debug)]
pub struct MarketplaceListingFields<D> {
    list_date: Option<D>,
    price: Option<Price>,
    condition: Option<GameCondition>,
    notes: Option<String>,
    link: Option<String>,
}

/// The fields of a marketplace listing read so far, as mathematical values.
#[verifier::ext_equal]
pub ghost struct MarketplaceListingFieldsView<D> {
    /// The `listdate` field, once read: when it was listed.
    pub list_date: Option<D>,
    /// The `price` field, once read: its price.
    pub price: Option<Price>,
    /// The `condition` field, once read: the condition of the copy.
    pub condition: Option<GameCondition>,
    /// The `notes` field, once read: the notes of the seller.
    pub notes: Option<String>,
    /// The `link` field, once read: the link to the listing.
    pub link: Option<String>,
}

impl<D> View for MarketplaceListingFields<D> {
    type V = MarketplaceListingFieldsView<D>;

    closed spec fn view(&self) -> MarketplaceListingFieldsView<D> {
        MarketplaceListingFieldsView {
            list_date: self.list_date,
            price: self.price,
            condition: self.condition,
            notes: self.notes,
            link: self.link,
        }
    }
}

/// Whether a key may come next: a field that may be given once is refused when it was
/// given already.
pub open spec fn listing_key_check<D>(f: MarketplaceListingFieldsView<D>, key: MarketplaceListingField) -> Result<(), FieldErrorView> {
    match key {
        MarketplaceListingField::ListDate => if f.list_date is Some {
            Err(FieldErrorView::Duplicate("listdate"@))
        } else {
            Ok(())
        },
        MarketplaceListingField::Price => if f.price is Some {
            Err(FieldErrorView::Duplicate("price"@))
        } else {
            Ok(())
        },
        MarketplaceListingField::Condition => if f.condition is Some {
            Err(FieldErrorView::Duplicate("condition"@))
        } else {
            Ok(())
        },
        MarketplaceListingField::Notes => if f.notes is Some {
            Err(FieldErrorView::Duplicate("notes"@))
        } else {
            Ok(())
        },
        MarketplaceListingField::Link => if f.link is Some {
            Err(FieldErrorView::Duplicate("link"@))
        } else {
            Ok(())
        },
    }
}

/// The fields after one more value is read, or the error that the value brings.
pub open spec fn listing_accept<D>(f: MarketplaceListingFieldsView<D>, value: MarketplaceListingValue<D>) -> Result<MarketplaceListingFieldsView<D>, FieldErrorView> {
    match value {
        MarketplaceListingValue::ListDate(x) => if f.list_date is Some {
            Err(FieldErrorView::Duplicate("listdate"@))
        } else {
            Ok(MarketplaceListingFieldsView { list_date: Some(x), ..f })
        },
        MarketplaceListingValue::Price(x) => if f.price is Some {
            Err(FieldErrorView::Duplicate("price"@))
        } else {
            Ok(MarketplaceListingFieldsView { price: Some(x), ..f })
        },
        MarketplaceListingValue::Condition(x) => if f.condition is Some {
            Err(FieldErrorView::Duplicate("condition"@))
        } else {
            Ok(MarketplaceListingFieldsView { condition: Some(x), ..f })
        },
        MarketplaceListingValue::Notes(x) => if f.notes is Some {
            Err(FieldErrorView::Duplicate("notes"@))
        } else {
            Ok(MarketplaceListingFieldsView { notes: Some(x), ..f })
        },
        MarketplaceListingValue::Link(x) => if f.link is Some {
            Err(FieldErrorView::Duplicate("link"@))
        } else {
            Ok(MarketplaceListingFieldsView { link: Some(x), ..f })
        },
    }
}

/// The key under which a value is given.
pub open spec fn listing_value_key<D>(v: MarketplaceListingValue<D>) -> MarketplaceListingField {
    match v {
        MarketplaceListingValue::ListDate(..) => MarketplaceListingField::ListDate,
        MarketplaceListingValue::Price(..) => MarketplaceListingField::Price,
        MarketplaceListingValue::Condition(..) => MarketplaceListingField::Condition,
        MarketplaceListingValue::Notes(..) => MarketplaceListingField::Notes,
        MarketplaceListingValue::Link(..) => MarketplaceListingField::Link,
    }
}

/// Law: the check made when a key of a marketplace listing is read refuses exactly what taking its
/// value would refuse as given twice: when the check fails, taking the value fails alike.
pub proof fn law_listing_key_check_agrees<D>(f: MarketplaceListingFieldsView<D>, v: MarketplaceListingValue<D>)
    ensures
        listing_key_check(f, listing_value_key(v)) matches Err(e) ==> listing_accept(f, v)
            == Err::<MarketplaceListingFieldsView<D>, FieldErrorView>(e),
{
}

impl<D> MarketplaceListingFields<D> {
    /// No field read yet.
    pub fn new() -> (r: Self)
        ensures
            r@ == (MarketplaceListingFieldsView::<D> {
                list_date: None,
                price: None,
                condition: None,
                notes: None,
                link: None,
            }),
    {
        MarketplaceListingFields {
            list_date: None,
            price: None,
            condition: None,
            notes: None,
            link: None,
        }
    }

    /// Checks that a key may come next, before its value is read.
    pub fn check_key(&self, key: MarketplaceListingField) -> (r: Result<(), FieldError>)
        ensures
            result_view(r) == listing_key_check(self@, key),
    {
        match key {
            MarketplaceListingField::ListDate => vacant(&self.list_date, "listdate"),
            MarketplaceListingField::Price => vacant(&self.price, "price"),
            MarketplaceListingField::Condition => vacant(&self.condition, "condition"),
            MarketplaceListingField::Notes => vacant(&self.notes, "notes"),
            MarketplaceListingField::Link => vacant(&self.link, "link"),
        }
    }

    /// Takes the value of one more field.
    pub fn accept(&mut self, value: MarketplaceListingValue<D>) -> (r: Result<(), FieldError>)
        ensures
            match listing_accept(old(self)@, value) {
                Ok(f) => r is Ok && final(self)@ == f,
                Err(e) => r matches Err(x) && x@ == e && final(self)@ == old(self)@,
            },
    {
        match value {
            MarketplaceListingValue::ListDate(x) => set_once(&mut self.list_date, x, "listdate"),
            MarketplaceListingValue::Price(x) => set_once(&mut self.price, x, "price"),
            MarketplaceListingValue::Condition(x) => set_once(&mut self.condition, x, "condition"),
            MarketplaceListingValue::Notes(x) => set_once(&mut self.notes, x, "notes"),
            MarketplaceListingValue::Link(x) => set_once(&mut self.link, x, "link"),
        }
    }

    /// The finished value, once every field that must be given was read.
    pub fn finish(self) -> (r: Result<MarketplaceListing<D>, FieldError>)
        ensures
            match listing_finish_error(self@) {
                Some(e) => r matches Err(x) && x@ == e,
                None => r matches Ok(x) && listing_built(x, self@),
            },
    {
        let ghost f = self@;
        let list_date = match self.list_date {
            Some(x) => x,
            None => {
                return Err(FieldError::Missing("listdate"));
            },
        };
        let price = match self.price {
            Some(x) => x,
            None => {
                return Err(FieldError::Missing("price"));
            },
        };
        let condition = match self.condition {
            Some(x) => x,
            None => {
                return Err(FieldError::Missing("condition"));
            },
        };
        let notes = match self.notes {
            Some(x) => x,
            None => {
                return Err(FieldError::Missing("notes"));
            },
        };
        let link = match self.link {
            Some(x) => x,
            None => {
                return Err(FieldError::Missing("link"));
            },
        };
        Ok(MarketplaceListing {
            list_date: list_date,
            price: price,
            condition: condition,
            notes: notes,
            link: link,
        })
    }
}


/// The fields of a video after taking values in order, or the first error.
pub open spec fn video_accept_all<D>(f: VideoFieldsView<D>, vs: Seq<VideoValue<D>>) -> Result<
    VideoFieldsView<D>,
    FieldErrorView,
>
    decreases vs.len(),
{
    if vs.len() == 0 {
        Ok(f)
    } else {
        match video_accept(f, vs[0]) {
            Ok(g) => video_accept_all(g, vs.drop_first()),
            Err(e) => Err(e),
        }
    }
}

/// Law: a video whose every field is given once, in the order the API lists them, is
/// gathered without error, holding exactly those values, which finishing then puts into the
/// video (see `video_built`).
pub proof fn law_video_fields_once<D>(
    id: u64,
    title: String,
    category: VideoCategory,
    language: String,
    link: String,
    username: String,
    user_id: u64,
    post_date: D,
)
    ensures
        ({
            let vs = seq![
                VideoValue::Id(id),
                VideoValue::Title(title),
                VideoValue::Category(category),
                VideoValue::Language(language),
                VideoValue::Link(link),
                VideoValue::Username(username),
                VideoValue::UserId(user_id),
                VideoValue::PostDate(post_date),
            ];
            let empty = VideoFieldsView::<D> {
                id: None,
                title: None,
                category: None,
                language: None,
                link: None,
                username: None,
                user_id: None,
                post_date: None,
            };
            video_accept_all(empty, vs) matches Ok(f) && video_finish_error(f) is None && f
                == (VideoFieldsView::<D> {
                id: Some(id),
                title: Some(title),
                category: Some(category),
                language: Some(language),
                link: Some(link),
                username: Some(username),
                user_id: Some(user_id),
                post_date: Some(post_date),
            })
        }),
{
    let vs = seq![
        VideoValue::Id(id),
        VideoValue::Title(title),
        VideoValue::Category(category),
        VideoValue::Language(language),
        VideoValue::Link(link),
        VideoValue::Username(username),
        VideoValue::UserId(user_id),
        VideoValue::PostDate(post_date),
    ];
    reveal_with_fuel(video_accept_all, 9);
    assert(vs.drop_first() =~= seq![
        VideoValue::Title(title),
        VideoValue::Category(category),
        VideoValue::Language(language),
        VideoValue::Link(link),
        VideoValue::Username(username),
        VideoValue::UserId(user_id),
        VideoValue::PostDate(post_date),
    ]);
    assert(vs.drop_first().drop_first() =~= seq![
        VideoValue::Category(category),
        VideoValue::Language(language),
        VideoValue::Link(link),
        VideoValue::Username(username),
        VideoValue::UserId(user_id),
        VideoValue::PostDate(post_date),
    ]);
    assert(vs.drop_first().drop_first().drop_first() =~= seq![
        VideoValue::Language(language),
        VideoValue::Link(link),
        VideoValue::Username(username),
        VideoValue::UserId(user_id),
        VideoValue::PostDate(post_date),
    ]);
    assert(vs.drop_first().drop_first().drop_first().drop_first() =~= seq![
        VideoValue::Link(link),
        VideoValue::Username(username),
        VideoValue::UserId(user_id),
        VideoValue::PostDate(post_date),
    ]);
    assert(vs.drop_first().drop_first().drop_first().drop_first().drop_first() =~= seq![
        VideoValue::Username(username),
        VideoValue::UserId(user_id),
        VideoValue::PostDate(post_date),
    ]);
    assert(vs.drop_first().drop_first().drop_first().drop_first().drop_first().drop_first() =~= seq![
        VideoValue::UserId(user_id),
        VideoValue::PostDate(post_date),
    ]);
    assert(vs.drop_first().drop_first().drop_first().drop_first().drop_first().drop_first().drop_first()
        =~= seq![VideoValue::PostDate(post_date)]);
    assert(vs.drop_first().drop_first().drop_first().drop_first().drop_first().drop_first().drop_first()
        .drop_first() =~= Seq::<VideoValue<D>>::empty());
}

/// Law: each value of a video goes to its own field, once, a second one being refused as given
/// twice; and a finished video takes each field from the value read for it.
pub proof fn law_video_values_go_to_their_fields<D>(f: VideoFieldsView<D>, x: Video<D>)
    ensures
        forall|v: u64| #[trigger] video_accept(f, VideoValue::Id(v)) == if f.id is Some {
            Err::<VideoFieldsView<D>, FieldErrorView>(FieldErrorView::Duplicate("id"@))
        } else {
            Ok::<VideoFieldsView<D>, FieldErrorView>((VideoFieldsView { id: Some(v), ..f }))
        },
        forall|v: String| #[trigger] video_accept(f, VideoValue::Title(v)) == if f.title is Some {
            Err::<VideoFieldsView<D>, FieldErrorView>(FieldErrorView::Duplicate("title"@))
        } else {
            Ok::<VideoFieldsView<D>, FieldErrorView>((VideoFieldsView { title: Some(v), ..f }))
        },
        forall|v: VideoCategory| #[trigger] video_accept(f, VideoValue::Category(v)) == if f.category is Some {
            Err::<VideoFieldsView<D>, FieldErrorView>(FieldErrorView::Duplicate("category"@))
        } else {
            Ok::<VideoFieldsView<D>, FieldErrorView>((VideoFieldsView { category: Some(v), ..f }))
        },
        forall|v: String| #[trigger] video_accept(f, VideoValue::Language(v)) == if f.language is Some {
            Err::<VideoFieldsView<D>, FieldErrorView>(FieldErrorView::Duplicate("language"@))
        } else {
            Ok::<VideoFieldsView<D>, FieldErrorView>((VideoFieldsView { language: Some(v), ..f }))
        },
        forall|v: String| #[trigger] video_accept(f, VideoValue::Link(v)) == if f.link is Some {
            Err::<VideoFieldsView<D>, FieldErrorView>(FieldErrorView::Duplicate("link"@))
        } else {
            Ok::<VideoFieldsView<D>, FieldErrorView>((VideoFieldsView { link: Some(v), ..f }))
        },
        forall|v: String| #[trigger] video_accept(f, VideoValue::Username(v)) == if f.username is Some {
            Err::<VideoFieldsView<D>, FieldErrorView>(FieldErrorView::Duplicate("username"@))
        } else {
            Ok::<VideoFieldsView<D>, FieldErrorView>((VideoFieldsView { username: Some(v), ..f }))
        },
        forall|v: u64| #[trigger] video_accept(f, VideoValue::UserId(v)) == if f.user_id is Some {
            Err::<VideoFieldsView<D>, FieldErrorView>(FieldErrorView::Duplicate("userid"@))
        } else {
            Ok::<VideoFieldsView<D>, FieldErrorView>((VideoFieldsView { user_id: Some(v), ..f }))
        },
        forall|v: D| #[trigger] video_accept(f, VideoValue::PostDate(v)) == if f.post_date is Some {
            Err::<VideoFieldsView<D>, FieldErrorView>(FieldErrorView::Duplicate("postdate"@))
        } else {
            Ok::<VideoFieldsView<D>, FieldErrorView>((VideoFieldsView { post_date: Some(v), ..f }))
        },
        video_built(x, f) ==> (x.id == f.id.unwrap()),
        video_built(x, f) ==> (x.title == f.title.unwrap()),
        video_built(x, f) ==> (x.category == f.category.unwrap()),
        video_built(x, f) ==> (x.language == f.language.unwrap()),
        video_built(x, f) ==> (x.link == f.link.unwrap()),
        video_built(x, f) ==> (x.uploader == User { user_id: f.user_id.unwrap(), username: f.username.unwrap() }),
        video_built(x, f) ==> (x.post_date == f.post_date.unwrap()),
{
}

/// Law: each value of a marketplace listing goes to its own field, once, a second one being
/// refused as given twice; and a finished listing takes each field from the value read for it.
pub proof fn law_listing_values_go_to_their_fields<D>(f: MarketplaceListingFieldsView<D>, x: MarketplaceListing<D>)
    ensures
        forall|v: D| #[trigger] listing_accept(f, MarketplaceListingValue::ListDate(v)) == if f.list_date is Some {
            Err::<MarketplaceListingFieldsView<D>, FieldErrorView>(FieldErrorView::Duplicate("listdate"@))
        } else {
            Ok::<MarketplaceListingFieldsView<D>, FieldErrorView>((MarketplaceListingFieldsView { list_date: Some(v), ..f }))
        },
        forall|v: Price| #[trigger] listing_accept(f, MarketplaceListingValue::Price(v)) == if f.price is Some {
            Err::<MarketplaceListingFieldsView<D>, FieldErrorView>(FieldErrorView::Duplicate("price"@))
        } else {
            Ok::<MarketplaceListingFieldsView<D>, FieldErrorView>((MarketplaceListingFieldsView { price: Some(v), ..f }))
        },
        forall|v: GameCondition| #[trigger] listing_accept(f, MarketplaceListingValue::Condition(v)) == if f.condition is Some {
            Err::<MarketplaceListingFieldsView<D>, FieldErrorView>(FieldErrorView::Duplicate("condition"@))
        } else {
            Ok::<MarketplaceListingFieldsView<D>, FieldErrorView>((MarketplaceListingFieldsView { condition: Some(v), ..f }))
        },
        forall|v: String| #[trigger] listing_accept(f, MarketplaceListingValue::Notes(v)) == if f.notes is Some {
            Err::<MarketplaceListingFieldsView<D>, FieldErrorView>(FieldErrorView::Duplicate("notes"@))
        } else {
            Ok::<MarketplaceListingFieldsView<D>, FieldErrorView>((MarketplaceListingFieldsView { notes: Some(v), ..f }))
        },
        forall|v: String| #[trigger] listing_accept(f, MarketplaceListingValue::Link(v)) == if f.link is Some {
            Err::<MarketplaceListingFieldsView<D>, FieldErrorView>(FieldErrorView::Duplicate("link"@))
        } else {
            Ok::<MarketplaceListingFieldsView<D>, FieldErrorView>((MarketplaceListingFieldsView { link: Some(v), ..f }))
        },
        listing_built(x, f) ==> (x.list_date == f.list_date.unwrap()),
        listing_built(x, f) ==> (x.price == f.price.unwrap()),
        listing_built(x, f) ==> (x.condition == f.condition.unwrap()),
        listing_built(x, f) ==> (x.notes == f.notes.unwrap()),
        listing_built(x, f) ==> (x.link == f.link.unwrap()),
{
}

} // verus!
