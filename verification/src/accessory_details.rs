//! An accessory with its full details, as the accessory endpoint returns it.
use vstd::prelude::*;

use crate::decode::{
    result_view, set_once, unexpected_link, unexpected_link_message, vacant, FieldError,
    FieldErrorView,
};
use crate::details::RatingCommentPage;
use crate::media::MarketplaceListing;
use crate::models::{Game, GameArtist, GameDesigner, GamePublisher, ItemType, NameType};

verus! {

/// A version of an accessory, such as one in another language.
#[derive(Clone, Debug)]
pub struct AccessoryVersion {
    /// The ID of the version.
    pub id: u64,
    /// The name of the version.
    pub name: String,
    /// A link to a jpg image for the version, if it has one.
    pub image: Option<String>,
    /// A link to a jpg thumbnail image for the version, if it has one.
    pub thumbnail: Option<String>,
}

/// An accessory with all its details.
///
/// `F` is the type of a rating and `D` that of a date and time.
#[derive(Clone, Debug)]
pub struct AccessoryDetails<F, D> {
    /// The ID of the accessory.
    pub id: u64,
    /// The name of the accessory.
    pub name: String,
    /// Alternate names of the accessory.
    pub alternate_names: Vec<String>,
    /// A description of the accessory.
    pub description: String,
    /// A link to a jpg image for the accessory, if it has one.
    pub image: Option<String>,
    /// A link to a jpg thumbnail image for the accessory, if it has one.
    pub thumbnail: Option<String>,
    /// The year the accessory was published.
    pub year_published: i64,
    /// The games this is an accessory for.
    pub accessory_for: Vec<Game>,
    /// The designers of the accessory.
    pub designers: Vec<GameDesigner>,
    /// The artists of the accessory.
    pub artists: Vec<GameArtist>,
    /// The publishers of the accessory.
    pub publishers: Vec<GamePublisher>,
    /// The versions of the accessory, when asked for.
    pub versions: Vec<AccessoryVersion>,
    /// Copies of the accessory for sale, when asked for.
    pub marketplace_listings: Vec<MarketplaceListing<D>>,
    /// A page of comments and ratings, when asked for.
    pub rating_comments: Option<RatingCommentPage<F>>,
}

/// The first field of an accessory that must be given and was not, if any.
pub open spec fn accessory_missing<F, D>(f: AccessoryDetailsFieldsView<F, D>) -> Option<Seq<char>> {
    if f.id is None {
        Some("id"@)
    } else if f.thumbnail is None {
        Some("thumbnail"@)
    } else if f.image is None {
        Some("image"@)
    } else if f.name is None {
        Some("name"@)
    } else if f.description is None {
        Some("description"@)
    } else if f.year_published is None {
        Some("yearpublished"@)
    } else {
        None
    }
}

/// The error that finishing an accessory gives, if any.
pub open spec fn accessory_finish_error<F, D>(f: AccessoryDetailsFieldsView<F, D>) -> Option<FieldErrorView> {
    match accessory_missing(f) {
        Some(n) => Some(FieldErrorView::Missing(n)),
        None => None,
    }
}

/// Whether an accessory is the one that these fields make.
pub open spec fn accessory_built<F, D>(x: AccessoryDetails<F, D>, f: AccessoryDetailsFieldsView<F, D>) -> bool {
    &&& x.id == f.id.unwrap()
    &&& x.name == f.name.unwrap()
    &&& x.alternate_names@ == f.alternate_names
    &&& x.description == f.description.unwrap()
    &&& x.image == f.image.unwrap()
    &&& x.thumbnail == f.thumbnail.unwrap()
    &&& x.year_published == f.year_published.unwrap()
    &&& x.accessory_for@ == f.accessory_for
    &&& x.designers@ == f.designers
    &&& x.artists@ == f.artists
    &&& x.publishers@ == f.publishers
    &&& match f.versions { Some(v) => x.versions == v, None => x.versions@.len() == 0 }
    &&& match f.marketplace_listings { Some(v) => x.marketplace_listings == v, None => x.marketplace_listings@.len() == 0 }
    &&& x.rating_comments == f.rating_comments
}

/// The kinds of field of an accessory, as the keys of its XML object.
#[derive(Clone, Copy, Debug, PartialEq, Eq, Structural)]
pub enum AccessoryDetailsField {
    /// The `id` field.
    Id,
    /// The `thumbnail` field.
    Thumbnail,
    /// The `image` field.
    Image,
    /// The `description` field.
    Description,
    /// The `yearpublished` field.
    YearPublished,
    /// The `versions` field.
    Versions,
    /// The `marketplacelistings` field.
    MarketPlaceListings,
    /// The `comments` field.
    Comments,
    /// The `type` field.
    Type,
    /// A `name` field, primary or alternate.
    Name,
    /// A `link` field.
    Link,
}

/// The value of a field of an accessory, read from the XML.
#[derive(Clone, Debug)]
pub enum AccessoryDetailsValue<F, D> {
    /// The `id` field: its ID.
    Id(u64),
    /// The `thumbnail` field: the link to its thumbnail, if any.
    Thumbnail(Option<String>),
    /// The `image` field: the link to its image, if any.
    Image(Option<String>),
    /// The `description` field: its description.
    Description(String),
    /// The `yearpublished` field: the year it was published.
    YearPublished(i64),
    /// The `versions` field: its versions.
    Versions(Vec<AccessoryVersion>),
    /// The `marketplacelistings` field: copies for sale.
    MarketPlaceListings(Vec<MarketplaceListing<D>>),
    /// The `comments` field: a page of comments.
    Comments(RatingCommentPage<F>),
    /// The `type` field, always the same, which is read and dropped.
    Type(String),
    /// A `name` field: a primary or an alternate name.
    Name(NameType, String),
    /// A `link` field: the type, ID and name of a linked item.
    Link(ItemType, u64, String),
}

/// The fields of an accessory read so far.
#[derive(Clone, Debug)]
pub struct AccessoryDetailsFields<F, D> {
    id: Option<u64>,
    thumbnail: Option<Option<String>>,
    image: Option<Option<String>>,
    description: Option<String>,
    year_published: Option<i64>,
    versions: Option<Vec<AccessoryVersion>>,
    marketplace_listings: Option<Vec<MarketplaceListing<D>>>,
    rating_comments: Option<RatingCommentPage<F>>,
    name: Option<String>,
    alternate_names: Vec<String>,
    accessory_for: Vec<Game>,
    designers: Vec<GameDesigner>,
    artists: Vec<GameArtist>,
    publishers: Vec<GamePublisher>,
}

/// The fields of an accessory read so far, as mathematical values.
#[verifier::ext_equal]
pub ghost struct AccessoryDetailsFieldsView<F, D> {
    /// The `id` field, once read: its ID.
    pub id: Option<u64>,
    /// The `thumbnail` field, once read: the link to its thumbnail, if any.
    pub thumbnail: Option<Option<String>>,
    /// The `image` field, once read: the link to its image, if any.
    pub image: Option<Option<String>>,
    /// The `description` field, once read: its description.
    pub description: Option<String>,
    /// The `yearpublished` field, once read: the year it was published.
    pub year_published: Option<i64>,
    /// The `versions` field, once read: its versions.
    pub versions: Option<Vec<AccessoryVersion>>,
    /// The `marketplacelistings` field, once read: copies for sale.
    pub marketplace_listings: Option<Vec<MarketplaceListing<D>>>,
    /// The `comments` field, once read: a page of comments.
    pub rating_comments: Option<RatingCommentPage<F>>,
    /// The primary name, once read.
    pub name: Option<String>,
    /// The alternate names read so far.
    pub alternate_names: Seq<String>,
    /// The games it is an accessory for, read so far.
    pub accessory_for: Seq<Game>,
    /// The designers read so far.
    pub designers: Seq<GameDesigner>,
    /// The artists read so far.
    pub artists: Seq<GameArtist>,
    /// The publishers read so far.
    pub publishers: Seq<GamePublisher>,
}

impl<F, D> View for AccessoryDetailsFields<F, D> {
    type V = AccessoryDetailsFieldsView<F, D>;

    closed spec fn view(&self) -> AccessoryDetailsFieldsView<F, D> {
        AccessoryDetailsFieldsView {
            id: self.id,
            thumbnail: self.thumbnail,
            image: self.image,
            description: self.description,
            year_published: self.year_published,
            versions: self.versions,
            marketplace_listings: self.marketplace_listings,
            rating_comments: self.rating_comments,
            name: self.name,
            alternate_names: self.alternate_names@,
            accessory_for: self.accessory_for@,
            designers: self.designers@,
            artists: self.artists@,
            publishers: self.publishers@,
        }
    }
}

/// Whether a key may come next: a field that may be given once is refused when it was
/// given already.
pub open spec fn accessory_key_check<F, D>(f: AccessoryDetailsFieldsView<F, D>, key: AccessoryDetailsField) -> Result<(), FieldErrorView> {
    match key {
        AccessoryDetailsField::Id => if f.id is Some {
            Err(FieldErrorView::Duplicate("id"@))
        } else {
            Ok(())
        },
        AccessoryDetailsField::Thumbnail => if f.thumbnail is Some {
            Err(FieldErrorView::Duplicate("thumbnail"@))
        } else {
            Ok(())
        },
        AccessoryDetailsField::Image => if f.image is Some {
            Err(FieldErrorView::Duplicate("image"@))
        } else {
            Ok(())
        },
        AccessoryDetailsField::Description => if f.description is Some {
            Err(FieldErrorView::Duplicate("description"@))
        } else {
            Ok(())
        },
        AccessoryDetailsField::YearPublished => if f.year_published is Some {
            Err(FieldErrorView::Duplicate("yearpublished"@))
        } else {
            Ok(())
        },
        AccessoryDetailsField::Versions => if f.versions is Some {
            Err(FieldErrorView::Duplicate("versions"@))
        } else {
            Ok(())
        },
        AccessoryDetailsField::MarketPlaceListings => if f.marketplace_listings is Some {
            Err(FieldErrorView::Duplicate("marketplacelistings"@))
        } else {
            Ok(())
        },
        AccessoryDetailsField::Comments => if f.rating_comments is Some {
            Err(FieldErrorView::Duplicate("comments"@))
        } else {
            Ok(())
        },
        AccessoryDetailsField::Type => Ok(()),
        AccessoryDetailsField::Name => Ok(()),
        AccessoryDetailsField::Link => Ok(()),
    }
}

/// The fields after one more value is read, or the error that the value brings.
pub open spec fn accessory_accept<F, D>(f: AccessoryDetailsFieldsView<F, D>, value: AccessoryDetailsValue<F, D>) -> Result<AccessoryDetailsFieldsView<F, D>, FieldErrorView> {
    match value {
        AccessoryDetailsValue::Id(x) => if f.id is Some {
            Err(FieldErrorView::Duplicate("id"@))
        } else {
            Ok(AccessoryDetailsFieldsView { id: Some(x), ..f })
        },
        AccessoryDetailsValue::Thumbnail(x) => if f.thumbnail is Some {
            Err(FieldErrorView::Duplicate("thumbnail"@))
        } else {
            Ok(AccessoryDetailsFieldsView { thumbnail: Some(x), ..f })
        },
        AccessoryDetailsValue::Image(x) => if f.image is Some {
            Err(FieldErrorView::Duplicate("image"@))
        } else {
            Ok(AccessoryDetailsFieldsView { image: Some(x), ..f })
        },
        AccessoryDetailsValue::Description(x) => if f.description is Some {
            Err(FieldErrorView::Duplicate("description"@))
        } else {
            Ok(AccessoryDetailsFieldsView { description: Some(x), ..f })
        },
        AccessoryDetailsValue::YearPublished(x) => if f.year_published is Some {
            Err(FieldErrorView::Duplicate("yearpublished"@))
        } else {
            Ok(AccessoryDetailsFieldsView { year_published: Some(x), ..f })
        },
        AccessoryDetailsValue::Versions(x) => if f.versions is Some {
            Err(FieldErrorView::Duplicate("versions"@))
        } else {
            Ok(AccessoryDetailsFieldsView { versions: Some(x), ..f })
        },
        AccessoryDetailsValue::MarketPlaceListings(x) => if f.marketplace_listings is Some {
            Err(FieldErrorView::Duplicate("marketplacelistings"@))
        } else {
            Ok(AccessoryDetailsFieldsView { marketplace_listings: Some(x), ..f })
        },
        AccessoryDetailsValue::Comments(x) => if f.rating_comments is Some {
            Err(FieldErrorView::Duplicate("comments"@))
        } else {
            Ok(AccessoryDetailsFieldsView { rating_comments: Some(x), ..f })
        },
        AccessoryDetailsValue::Type(_) => Ok(f),
        AccessoryDetailsValue::Name(t, x) => match t {
            NameType::Primary => if f.name is Some {
                Err(FieldErrorView::Duplicate("name type=\"primary\""@))
            } else {
                Ok(AccessoryDetailsFieldsView { name: Some(x), ..f })
            },
            NameType::Alternate => Ok(AccessoryDetailsFieldsView { alternate_names: f.alternate_names.push(x), ..f }),
        },
        AccessoryDetailsValue::Link(t, id, x) => match t {
            ItemType::BoardGameAccessory => Ok(AccessoryDetailsFieldsView { accessory_for: f.accessory_for.push(Game { id, name: x }), ..f }),
            ItemType::BoardGameDesigner => Ok(AccessoryDetailsFieldsView { designers: f.designers.push(GameDesigner { id, name: x }), ..f }),
            ItemType::BoardGameArtist => Ok(AccessoryDetailsFieldsView { artists: f.artists.push(GameArtist { id, name: x }), ..f }),
            ItemType::BoardGamePublisher => Ok(AccessoryDetailsFieldsView { publishers: f.publishers.push(GamePublisher { id, name: x }), ..f }),
            _ => Err(FieldErrorView::Custom(unexpected_link_message(t, "game info"@))),
        },
    }
}

/// The key under which a value is given.
pub open spec fn accessory_value_key<F, D>(v: AccessoryDetailsValue<F, D>) -> AccessoryDetailsField {
    match v {
        AccessoryDetailsValue::Id(..) => AccessoryDetailsField::Id,
        AccessoryDetailsValue::Thumbnail(..) => AccessoryDetailsField::Thumbnail,
        AccessoryDetailsValue::Image(..) => AccessoryDetailsField::Image,
        AccessoryDetailsValue::Description(..) => AccessoryDetailsField::Description,
        AccessoryDetailsValue::YearPublished(..) => AccessoryDetailsField::YearPublished,
        AccessoryDetailsValue::Versions(..) => AccessoryDetailsField::Versions,
        AccessoryDetailsValue::MarketPlaceListings(..) => AccessoryDetailsField::MarketPlaceListings,
        AccessoryDetailsValue::Comments(..) => AccessoryDetailsField::Comments,
        AccessoryDetailsValue::Type(..) => AccessoryDetailsField::Type,
        AccessoryDetailsValue::Name(..) => AccessoryDetailsField::Name,
        AccessoryDetailsValue::Link(..) => AccessoryDetailsField::Link,
    }
}

/// Law: the check made when a key of an accessory is read refuses exactly what taking its
/// value would refuse as given twice: when the check fails, taking the value fails alike.
pub proof fn law_accessory_key_check_agrees<F, D>(f: AccessoryDetailsFieldsView<F, D>, v: AccessoryDetailsValue<F, D>)
    ensures
        accessory_key_check(f, accessory_value_key(v)) matches Err(e) ==> accessory_accept(f, v)
            == Err::<AccessoryDetailsFieldsView<F, D>, FieldErrorView>(e),
{
}

impl<F, D> AccessoryDetailsFields<F, D> {
    /// No field read yet.
    pub fn new() -> (r: Self)
        ensures
            r@ == (AccessoryDetailsFieldsView::<F, D> {
                id: None,
                thumbnail: None,
                image: None,
                description: None,
                year_published: None,
                versions: None,
                marketplace_listings: None,
                rating_comments: None,
                name: None,
                alternate_names: Seq::<String>::empty(),
                accessory_for: Seq::<Game>::empty(),
                designers: Seq::<GameDesigner>::empty(),
                artists: Seq::<GameArtist>::empty(),
                publishers: Seq::<GamePublisher>::empty(),
            }),
    {
        AccessoryDetailsFields {
            id: None,
            thumbnail: None,
            image: None,
            description: None,
            year_published: None,
            versions: None,
            marketplace_listings: None,
            rating_comments: None,
            name: None,
            alternate_names: Vec::new(),
            accessory_for: Vec::new(),
            designers: Vec::new(),
            artists: Vec::new(),
            publishers: Vec::new(),
        }
    }

    /// Checks that a key may come next, before its value is read.
    pub fn check_key(&self, key: AccessoryDetailsField) -> (r: Result<(), FieldError>)
        ensures
            result_view(r) == accessory_key_check(self@, key),
    {
        match key {
            AccessoryDetailsField::Id => vacant(&self.id, "id"),
            AccessoryDetailsField::Thumbnail => vacant(&self.thumbnail, "thumbnail"),
            AccessoryDetailsField::Image => vacant(&self.image, "image"),
            AccessoryDetailsField::Description => vacant(&self.description, "description"),
            AccessoryDetailsField::YearPublished => vacant(&self.year_published, "yearpublished"),
            AccessoryDetailsField::Versions => vacant(&self.versions, "versions"),
            AccessoryDetailsField::MarketPlaceListings => vacant(&self.marketplace_listings, "marketplacelistings"),
            AccessoryDetailsField::Comments => vacant(&self.rating_comments, "comments"),
            AccessoryDetailsField::Type => Ok(()),
            AccessoryDetailsField::Name => Ok(()),
            AccessoryDetailsField::Link => Ok(()),
        }
    }

    /// Takes the value of one more field.
    pub fn accept(&mut self, value: AccessoryDetailsValue<F, D>) -> (r: Result<(), FieldError>)
        ensures
            match accessory_accept(old(self)@, value) {
                Ok(f) => r is Ok && final(self)@ == f,
                Err(e) => r matches Err(x) && x@ == e && final(self)@ == old(self)@,
            },
    {
        match value {
            AccessoryDetailsValue::Id(x) => set_once(&mut self.id, x, "id"),
            AccessoryDetailsValue::Thumbnail(x) => set_once(&mut self.thumbnail, x, "thumbnail"),
            AccessoryDetailsValue::Image(x) => set_once(&mut self.image, x, "image"),
            AccessoryDetailsValue::Description(x) => set_once(&mut self.description, x, "description"),
            AccessoryDetailsValue::YearPublished(x) => set_once(&mut self.year_published, x, "yearpublished"),
            AccessoryDetailsValue::Versions(x) => set_once(&mut self.versions, x, "versions"),
            AccessoryDetailsValue::MarketPlaceListings(x) => set_once(&mut self.marketplace_listings, x, "marketplacelistings"),
            AccessoryDetailsValue::Comments(x) => set_once(&mut self.rating_comments, x, "comments"),
            AccessoryDetailsValue::Type(_) => Ok(()),
            AccessoryDetailsValue::Name(t, x) => match t {
                NameType::Primary => set_once(&mut self.name, x, "name type=\"primary\""),
                NameType::Alternate => {
                    self.alternate_names.push(x);
                    Ok(())
                },
            },
            AccessoryDetailsValue::Link(t, id, x) => match t {
                ItemType::BoardGameAccessory => {
                    self.accessory_for.push(Game { id, name: x });
                    Ok(())
                },
                ItemType::BoardGameDesigner => {
                    self.designers.push(GameDesigner { id, name: x });
                    Ok(())
                },
                ItemType::BoardGameArtist => {
                    self.artists.push(GameArtist { id, name: x });
                    Ok(())
                },
                ItemType::BoardGamePublisher => {
                    self.publishers.push(GamePublisher { id, name: x });
                    Ok(())
                },
                _ => Err(unexpected_link(t, "game info")),
            },
        }
    }

    /// The finished value, once every field that must be given was read.
    pub fn finish(self) -> (r: Result<AccessoryDetails<F, D>, FieldError>)
        ensures
            match accessory_finish_error(self@) {
                Some(e) => r matches Err(x) && x@ == e,
                None => r matches Ok(x) && accessory_built(x, self@),
            },
    {
        let ghost f = self@;
        let id = match self.id {
            Some(x) => x,
            None => {
                return Err(FieldError::Missing("id"));
            },
        };
        let thumbnail = match self.thumbnail {
            Some(x) => x,
            None => {
                return Err(FieldError::Missing("thumbnail"));
            },
        };
        let image = match self.image {
            Some(x) => x,
            None => {
                return Err(FieldError::Missing("image"));
            },
        };
        let name = match self.name {
            Some(x) => x,
            None => {
                return Err(FieldError::Missing("name"));
            },
        };
        let description = match self.description {
            Some(x) => x,
            None => {
                return Err(FieldError::Missing("description"));
            },
        };
        let year_published = match self.year_published {
            Some(x) => x,
            None => {
                return Err(FieldError::Missing("yearpublished"));
            },
        };
        Ok(AccessoryDetails {
            id: id,
            name: name,
            alternate_names: self.alternate_names,
            description: description,
            image: image,
            thumbnail: thumbnail,
            year_published: year_published,
            accessory_for: self.accessory_for,
            designers: self.designers,
            artists: self.artists,
            publishers: self.publishers,
            versions: match self.versions { Some(v) => v, None => Vec::new() },
            marketplace_listings: match self.marketplace_listings { Some(v) => v, None => Vec::new() },
            rating_comments: self.rating_comments,
        })
    }
}

/// Law: each value of an accessory goes to its own field, once, a second one being refused as
/// given twice, an alternate name and each kind of link to its own list; and a finished
/// accessory takes each field from the value read for it.
pub proof fn law_accessory_values_go_to_their_fields<F, D>(f: AccessoryDetailsFieldsView<F, D>, x: AccessoryDetails<F, D>)
    ensures
        forall|v: u64| #[trigger] accessory_accept(f, AccessoryDetailsValue::Id(v)) == if f.id is Some {
            Err::<AccessoryDetailsFieldsView<F, D>, FieldErrorView>(FieldErrorView::Duplicate("id"@))
        } else {
            Ok::<AccessoryDetailsFieldsView<F, D>, FieldErrorView>((AccessoryDetailsFieldsView { id: Some(v), ..f }))
        },
        forall|v: Option<String>| #[trigger] accessory_accept(f, AccessoryDetailsValue::Thumbnail(v)) == if f.thumbnail is Some {
            Err::<AccessoryDetailsFieldsView<F, D>, FieldErrorView>(FieldErrorView::Duplicate("thumbnail"@))
        } else {
            Ok::<AccessoryDetailsFieldsView<F, D>, FieldErrorView>((AccessoryDetailsFieldsView { thumbnail: Some(v), ..f }))
        },
        forall|v: Option<String>| #[trigger] accessory_accept(f, AccessoryDetailsValue::Image(v)) == if f.image is Some {
            Err::<AccessoryDetailsFieldsView<F, D>, FieldErrorView>(FieldErrorView::Duplicate("image"@))
        } else {
            Ok::<AccessoryDetailsFieldsView<F, D>, FieldErrorView>((AccessoryDetailsFieldsView { image: Some(v), ..f }))
        },
        forall|v: String| #[trigger] accessory_accept(f, AccessoryDetailsValue::Description(v)) == if f.description is Some {
            Err::<AccessoryDetailsFieldsView<F, D>, FieldErrorView>(FieldErrorView::Duplicate("description"@))
        } else {
            Ok::<AccessoryDetailsFieldsView<F, D>, FieldErrorView>((AccessoryDetailsFieldsView { description: Some(v), ..f }))
        },
        forall|v: i64| #[trigger] accessory_accept(f, AccessoryDetailsValue::YearPublished(v)) == if f.year_published is Some {
            Err::<AccessoryDetailsFieldsView<F, D>, FieldErrorView>(FieldErrorView::Duplicate("yearpublished"@))
        } else {
            Ok::<AccessoryDetailsFieldsView<F, D>, FieldErrorView>((AccessoryDetailsFieldsView { year_published: Some(v), ..f }))
        },
        forall|v: Vec<AccessoryVersion>| #[trigger] accessory_accept(f, AccessoryDetailsValue::Versions(v)) == if f.versions is Some {
            Err::<AccessoryDetailsFieldsView<F, D>, FieldErrorView>(FieldErrorView::Duplicate("versions"@))
        } else {
            Ok::<AccessoryDetailsFieldsView<F, D>, FieldErrorView>((AccessoryDetailsFieldsView { versions: Some(v), ..f }))
        },
        forall|v: Vec<MarketplaceListing<D>>| #[trigger] accessory_accept(f, AccessoryDetailsValue::MarketPlaceListings(v)) == if f.marketplace_listings is Some {
            Err::<AccessoryDetailsFieldsView<F, D>, FieldErrorView>(FieldErrorView::Duplicate("marketplacelistings"@))
        } else {
            Ok::<AccessoryDetailsFieldsView<F, D>, FieldErrorView>((AccessoryDetailsFieldsView { marketplace_listings: Some(v), ..f }))
        },
        forall|v: RatingCommentPage<F>| #[trigger] accessory_accept(f, AccessoryDetailsValue::Comments(v)) == if f.rating_comments is Some {
            Err::<AccessoryDetailsFieldsView<F, D>, FieldErrorView>(FieldErrorView::Duplicate("comments"@))
        } else {
            Ok::<AccessoryDetailsFieldsView<F, D>, FieldErrorView>((AccessoryDetailsFieldsView { rating_comments: Some(v), ..f }))
        },
        forall|id: u64, name: String| #[trigger] accessory_accept(f, AccessoryDetailsValue::Link(ItemType::BoardGameAccessory, id, name)) == Ok::<AccessoryDetailsFieldsView<F, D>, FieldErrorView>((AccessoryDetailsFieldsView { accessory_for: f.accessory_for.push(Game { id, name }), ..f })),
        forall|id: u64, name: String| #[trigger] accessory_accept(f, AccessoryDetailsValue::Link(ItemType::BoardGameDesigner, id, name)) == Ok::<AccessoryDetailsFieldsView<F, D>, FieldErrorView>((AccessoryDetailsFieldsView { designers: f.designers.push(GameDesigner { id, name }), ..f })),
        forall|id: u64, name: String| #[trigger] accessory_accept(f, AccessoryDetailsValue::Link(ItemType::BoardGameArtist, id, name)) == Ok::<AccessoryDetailsFieldsView<F, D>, FieldErrorView>((AccessoryDetailsFieldsView { artists: f.artists.push(GameArtist { id, name }), ..f })),
        forall|id: u64, name: String| #[trigger] accessory_accept(f, AccessoryDetailsValue::Link(ItemType::BoardGamePublisher, id, name)) == Ok::<AccessoryDetailsFieldsView<F, D>, FieldErrorView>((AccessoryDetailsFieldsView { publishers: f.publishers.push(GamePublisher { id, name }), ..f })),
        accessory_built(x, f) ==> (x.id == f.id.unwrap()),
        accessory_built(x, f) ==> (x.name == f.name.unwrap()),
        accessory_built(x, f) ==> (x.alternate_names@ == f.alternate_names),
        accessory_built(x, f) ==> (x.description == f.description.unwrap()),
        accessory_built(x, f) ==> (x.image == f.image.unwrap()),
        accessory_built(x, f) ==> (x.thumbnail == f.thumbnail.unwrap()),
        accessory_built(x, f) ==> (x.year_published == f.year_published.unwrap()),
        accessory_built(x, f) ==> (x.accessory_for@ == f.accessory_for),
        accessory_built(x, f) ==> (x.designers@ == f.designers),
        accessory_built(x, f) ==> (x.artists@ == f.artists),
        accessory_built(x, f) ==> (x.publishers@ == f.publishers),
        accessory_built(x, f) ==> (match f.versions { Some(v) => x.versions == v, None => x.versions@.len() == 0 }),
        accessory_built(x, f) ==> (match f.marketplace_listings { Some(v) => x.marketplace_listings == v, None => x.marketplace_listings@.len() == 0 }),
        accessory_built(x, f) ==> (x.rating_comments == f.rating_comments),
{
}

} // verus!
