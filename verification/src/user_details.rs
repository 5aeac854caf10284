//! A user's profile, as the user endpoint returns it.
use vstd::prelude::*;

use crate::decode::{is_not_applicable, result_view, set_once, vacant, FieldError, FieldErrorView};

verus! {

broadcast use vstd::string::group_string_axioms;

/// The type of an item on a user's top or hot list.
#[derive(Clone, Copy, Debug, PartialEq, Eq, Structural)]
pub enum ListItemType {
    /// A game, expansion or accessory.
    Thing,
    /// A person, such as a designer.
    Person,
    /// A company, such as a publisher.
    Company,
    /// A family of games.
    Family,
    /// A property.
    Property,
    /// An event.
    Event,
}

/// An item on a user's top or hot list.
#[derive(Clone, Debug)]
pub struct ListItem {
    /// The ID of the item.
    pub id: u64,
    /// The name of the item.
    pub name: String,
    /// Its place on the list, from 1.
    pub rank: u64,
    /// The type of the item.
    pub item_type: ListItemType,
}

/// A guild that a user belongs to.
#[derive(Clone, Debug)]
pub struct GuildBrief {
    /// The ID of the guild.
    pub id: u64,
    /// The name of the guild.
    pub name: String,
}

/// A page of the guilds a user belongs to.
#[derive(Clone, Debug)]
pub struct GuildList {
    /// The number of guilds in all pages.
    pub total: u64,
    /// The number of this page.
    pub page: u64,
    /// The guilds of this page.
    pub guilds: Vec<GuildBrief>,
}

/// A buddy of a user.
#[derive(Clone, Debug)]
pub struct Buddy {
    /// The ID of the buddy.
    pub id: u64,
    /// The name of the buddy.
    pub name: String,
}

/// A page of a user's buddies.
#[derive(Clone, Debug)]
pub struct BuddyList {
    /// The number of buddies in all pages.
    pub total: u64,
    /// The number of this page.
    pub page: u64,
    /// The buddies of this page.
    pub buddies: Vec<Buddy>,
}

/// A user's profile.
///
/// `D` is the type of a date.
#[derive(Clone, Debug)]
pub struct User<D> {
    /// The ID of the user.
    pub id: u64,
    /// The name of the user.
    pub username: String,
    /// The first name of the user.
    pub first_name: String,
    /// The last name of the user.
    pub last_name: String,
    /// A link to the user's avatar, if there is one.
    pub avatar_link: Option<String>,
    /// The year the user registered.
    pub year_registered: i64,
    /// The date the user last logged in.
    pub last_login: D,
    /// The user's state or province, if given.
    pub state_or_province: Option<String>,
    /// The user's country, if given.
    pub country: Option<String>,
    /// The user's web address, if given.
    pub web_address: Option<String>,
    /// The user's Xbox account, if given.
    pub xbox_account: Option<String>,
    /// The user's Wii account, if given.
    pub wii_account: Option<String>,
    /// The user's PlayStation Network account, if given.
    pub psn_account: Option<String>,
    /// The user's Battle.net account, if given.
    pub battlenet_account: Option<String>,
    /// The user's Steam account, if given.
    pub steam_account: Option<String>,
    /// The user's trade rating.
    pub trade_rating: u64,
    /// The user's top list, when asked for.
    pub top_list: Vec<ListItem>,
    /// The user's hot list, when asked for.
    pub hot_list: Vec<ListItem>,
    /// A page of the user's buddies, when asked for.
    pub buddies: BuddyList,
    /// A page of the user's guilds, when asked for.
    pub guilds: GuildList,
}

/// An optional text, with an empty one taken as not given.
pub open spec fn none_if_empty(o: Option<String>) -> Option<String> {
    match o {
        Some(s) => if s@.len() == 0 {
            None
        } else {
            Some(s)
        },
        None => None,
    }
}

/// Drops an optional text that is empty: the API gives empty profile entries rather than none.
pub fn drop_empty(o: Option<String>) -> (r: Option<String>)
    ensures
        r == none_if_empty(o),
{
    match o {
        Some(s) => if s.as_str().is_empty() {
            None
        } else {
            Some(s)
        },
        None => None,
    }
}

/// The first field of a user that must be given and was not, if any.
pub open spec fn user_missing<D>(f: UserFieldsView<D>) -> Option<Seq<char>> {
    if f.id is None {
        Some("id"@)
    } else if f.username is None {
        Some("name"@)
    } else if f.first_name is None {
        Some("firstname"@)
    } else if f.last_name is None {
        Some("lastname"@)
    } else if f.year_registered is None {
        Some("yearregistered"@)
    } else if f.last_login is None {
        Some("lastlogin"@)
    } else if f.trade_rating is None {
        Some("traderating"@)
    } else {
        None
    }
}

/// The error that finishing a user gives, if any.
pub open spec fn user_finish_error<D>(f: UserFieldsView<D>) -> Option<FieldErrorView> {
    match user_missing(f) {
        Some(n) => Some(FieldErrorView::Missing(n)),
        None => None,
    }
}

/// Whether a user is the one that these fields make.
pub open spec fn user_built<D>(x: User<D>, f: UserFieldsView<D>) -> bool {
    &&& x.id == f.id.unwrap()
    &&& x.username == f.username.unwrap()
    &&& x.first_name == f.first_name.unwrap()
    &&& x.last_name == f.last_name.unwrap()
    &&& x.avatar_link == f.avatar_link
    &&& x.year_registered == f.year_registered.unwrap()
    &&& x.last_login == f.last_login.unwrap()
    &&& x.state_or_province == none_if_empty(f.state_or_province)
    &&& x.country == none_if_empty(f.country)
    &&& x.web_address == none_if_empty(f.web_address)
    &&& x.xbox_account == none_if_empty(f.xbox_account)
    &&& x.wii_account == none_if_empty(f.wii_account)
    &&& x.psn_account == none_if_empty(f.psn_account)
    &&& x.battlenet_account == none_if_empty(f.battlenet_account)
    &&& x.steam_account == none_if_empty(f.steam_account)
    &&& x.trade_rating == f.trade_rating.unwrap()
    &&& match f.top_list { Some(v) => x.top_list == v, None => x.top_list@.len() == 0 }
    &&& match f.hot_list { Some(v) => x.hot_list == v, None => x.hot_list@.len() == 0 }
    &&& match f.buddies { Some(b) => x.buddies == b, None => x.buddies.total == 0 && x.buddies.page == 0 && x.buddies.buddies@.len() == 0 }
    &&& match f.guilds { Some(g) => x.guilds == g, None => x.guilds.total == 0 && x.guilds.page == 0 && x.guilds.guilds@.len() == 0 }
}

/// The kinds of field of a user, as the keys of its XML object.
#[derive(Clone, Copy, Debug, PartialEq, Eq, Structural)]
pub enum UserField {
    /// The `id` field.
    Id,
    /// The `name` field.
    Name,
    /// The `firstname` field.
    FirstName,
    /// The `lastname` field.
    LastName,
    /// The `yearregistered` field.
    YearRegistered,
    /// The `lastlogin` field.
    LastLogin,
    /// The `stateorprovince` field.
    StateOrProvince,
    /// The `country` field.
    Country,
    /// The `webaddress` field.
    WebAddress,
    /// The `xboxaccount` field.
    XboxAccount,
    /// The `wiiaccount` field.
    WiiAccount,
    /// The `psnaccount` field.
    PsnAccount,
    /// The `battlenetaccount` field.
    BattlenetAccount,
    /// The `steamaccount` field.
    SteamAccount,
    /// The `traderating` field.
    TradeRating,
    /// The `top` field.
    Top,
    /// The `hot` field.
    Hot,
    /// The `guilds` field.
    Guilds,
    /// The `buddies` field.
    Buddies,
    /// The `termsofuse` field.
    TermsOfUse,
    /// The `avatarlink` field.
    AvatarLink,
}

/// The value of a field of a user, read from the XML.
#[derive(Clone, Debug)]
pub enum UserValue<D> {
    /// The `id` field: the user's ID.
    Id(u64),
    /// The `name` field: the user's name.
    Name(String),
    /// The `firstname` field: the first name.
    FirstName(String),
    /// The `lastname` field: the last name.
    LastName(String),
    /// The `yearregistered` field: the year of registration.
    YearRegistered(i64),
    /// The `lastlogin` field: the date of the last login.
    LastLogin(D),
    /// The `stateorprovince` field: as given, possibly empty.
    StateOrProvince(String),
    /// The `country` field: as given, possibly empty.
    Country(String),
    /// The `webaddress` field: as given, possibly empty.
    WebAddress(String),
    /// The `xboxaccount` field: as given, possibly empty.
    XboxAccount(String),
    /// The `wiiaccount` field: as given, possibly empty.
    WiiAccount(String),
    /// The `psnaccount` field: as given, possibly empty.
    PsnAccount(String),
    /// The `battlenetaccount` field: as given, possibly empty.
    BattlenetAccount(String),
    /// The `steamaccount` field: as given, possibly empty.
    SteamAccount(String),
    /// The `traderating` field: the trade rating.
    TradeRating(u64),
    /// The `top` field: the top list.
    Top(Vec<ListItem>),
    /// The `hot` field: the hot list.
    Hot(Vec<ListItem>),
    /// The `guilds` field: a page of guilds.
    Guilds(GuildList),
    /// The `buddies` field: a page of buddies.
    Buddies(BuddyList),
    /// The `termsofuse` field, which is read and dropped.
    TermsOfUse(String),
    /// The `avatarlink` field: the link, or `N/A` when there is none.
    AvatarLink(String),
}

/// The fields of a user read so far.
#[derive(Clone, Debug)]
pub struct UserFields<D> {
    id: Option<u64>,
    username: Option<String>,
    first_name: Option<String>,
    last_name: Option<String>,
    year_registered: Option<i64>,
    last_login: Option<D>,
    state_or_province: Option<String>,
    country: Option<String>,
    web_address: Option<String>,
    xbox_account: Option<String>,
    wii_account: Option<String>,
    psn_account: Option<String>,
    battlenet_account: Option<String>,
    steam_account: Option<String>,
    trade_rating: Option<u64>,
    top_list: Option<Vec<ListItem>>,
    hot_list: Option<Vec<ListItem>>,
    guilds: Option<GuildList>,
    buddies: Option<BuddyList>,
    avatar_link: Option<String>,
}

/// The fields of a user read so far, as mathematical values.
#[verifier::ext_equal]
pub ghost struct UserFieldsView<D> {
    /// The `id` field, once read: the user's ID.
    pub id: Option<u64>,
    /// The `name` field, once read: the user's name.
    pub username: Option<String>,
    /// The `firstname` field, once read: the first name.
    pub first_name: Option<String>,
    /// The `lastname` field, once read: the last name.
    pub last_name: Option<String>,
    /// The `yearregistered` field, once read: the year of registration.
    pub year_registered: Option<i64>,
    /// The `lastlogin` field, once read: the date of the last login.
    pub last_login: Option<D>,
    /// The `stateorprovince` field, once read: as given, possibly empty.
    pub state_or_province: Option<String>,
    /// The `country` field, once read: as given, possibly empty.
    pub country: Option<String>,
    /// The `webaddress` field, once read: as given, possibly empty.
    pub web_address: Option<String>,
    /// The `xboxaccount` field, once read: as given, possibly empty.
    pub xbox_account: Option<String>,
    /// The `wiiaccount` field, once read: as given, possibly empty.
    pub wii_account: Option<String>,
    /// The `psnaccount` field, once read: as given, possibly empty.
    pub psn_account: Option<String>,
    /// The `battlenetaccount` field, once read: as given, possibly empty.
    pub battlenet_account: Option<String>,
    /// The `steamaccount` field, once read: as given, possibly empty.
    pub steam_account: Option<String>,
    /// The `traderating` field, once read: the trade rating.
    pub trade_rating: Option<u64>,
    /// The `top` field, once read: the top list.
    pub top_list: Option<Vec<ListItem>>,
    /// The `hot` field, once read: the hot list.
    pub hot_list: Option<Vec<ListItem>>,
    /// The `guilds` field, once read: a page of guilds.
    pub guilds: Option<GuildList>,
    /// The `buddies` field, once read: a page of buddies.
    pub buddies: Option<BuddyList>,
    /// The avatar link, once read and not `N/A`.
    pub avatar_link: Option<String>,
}

impl<D> View for UserFields<D> {
    type V = UserFieldsView<D>;

    closed spec fn view(&self) -> UserFieldsView<D> {
        UserFieldsView {
            id: self.id,
            username: self.username,
            first_name: self.first_name,
            last_name: self.last_name,
            year_registered: self.year_registered,
            last_login: self.last_login,
            state_or_province: self.state_or_province,
            country: self.country,
            web_address: self.web_address,
            xbox_account: self.xbox_account,
            wii_account: self.wii_account,
            psn_account: self.psn_account,
            battlenet_account: self.battlenet_account,
            steam_account: self.steam_account,
            trade_rating: self.trade_rating,
            top_list: self.top_list,
            hot_list: self.hot_list,
            guilds: self.guilds,
            buddies: self.buddies,
            avatar_link: self.avatar_link,
        }
    }
}

/// Whether a key may come next: a field that may be given once is refused when it was
/// given already.
pub open spec fn user_key_check<D>(f: UserFieldsView<D>, key: UserField) -> Result<(), FieldErrorView> {
    match key {
        UserField::Id => if f.id is Some {
            Err(FieldErrorView::Duplicate("id"@))
        } else {
            Ok(())
        },
        UserField::Name => if f.username is Some {
            Err(FieldErrorView::Duplicate("name"@))
        } else {
            Ok(())
        },
        UserField::FirstName => if f.first_name is Some {
            Err(FieldErrorView::Duplicate("firstname"@))
        } else {
            Ok(())
        },
        UserField::LastName => if f.last_name is Some {
            Err(FieldErrorView::Duplicate("lastname"@))
        } else {
            Ok(())
        },
        UserField::YearRegistered => if f.year_registered is Some {
            Err(FieldErrorView::Duplicate("yearregistered"@))
        } else {
            Ok(())
        },
        UserField::LastLogin => if f.last_login is Some {
            Err(FieldErrorView::Duplicate("lastlogin"@))
        } else {
            Ok(())
        },
        UserField::StateOrProvince => if f.state_or_province is Some {
            Err(FieldErrorView::Duplicate("stateorprovince"@))
        } else {
            Ok(())
        },
        UserField::Country => if f.country is Some {
            Err(FieldErrorView::Duplicate("country"@))
        } else {
            Ok(())
        },
        UserField::WebAddress => if f.web_address is Some {
            Err(FieldErrorView::Duplicate("webaddress"@))
        } else {
            Ok(())
        },
        UserField::XboxAccount => if f.xbox_account is Some {
            Err(FieldErrorView::Duplicate("xboxaccount"@))
        } else {
            Ok(())
        },
        UserField::WiiAccount => if f.wii_account is Some {
            Err(FieldErrorView::Duplicate("wiiaccount"@))
        } else {
            Ok(())
        },
        UserField::PsnAccount => if f.psn_account is Some {
            Err(FieldErrorView::Duplicate("psnaccount"@))
        } else {
            Ok(())
        },
        UserField::BattlenetAccount => if f.battlenet_account is Some {
            Err(FieldErrorView::Duplicate("battlenetaccount"@))
        } else {
            Ok(())
        },
        UserField::SteamAccount => if f.steam_account is Some {
            Err(FieldErrorView::Duplicate("steamaccount"@))
        } else {
            Ok(())
        },
        UserField::TradeRating => if f.trade_rating is Some {
            Err(FieldErrorView::Duplicate("traderating"@))
        } else {
            Ok(())
        },
        UserField::Top => if f.top_list is Some {
            Err(FieldErrorView::Duplicate("top"@))
        } else {
            Ok(())
        },
        UserField::Hot => if f.hot_list is Some {
            Err(FieldErrorView::Duplicate("hot"@))
        } else {
            Ok(())
        },
        UserField::Guilds => if f.guilds is Some {
            Err(FieldErrorView::Duplicate("guilds"@))
        } else {
            Ok(())
        },
        UserField::Buddies => if f.buddies is Some {
            Err(FieldErrorView::Duplicate("buddies"@))
        } else {
            Ok(())
        },
        UserField::TermsOfUse => Ok(()),
        UserField::AvatarLink => if f.avatar_link is Some {
            Err(FieldErrorView::Duplicate("avatarlink"@))
        } else {
            Ok(())
        },
    }
}

/// The fields after one more value is read, or the error that the value brings.
pub open spec fn user_accept<D>(f: UserFieldsView<D>, value: UserValue<D>) -> Result<UserFieldsView<D>, FieldErrorView> {
    match value {
        UserValue::Id(x) => if f.id is Some {
            Err(FieldErrorView::Duplicate("id"@))
        } else {
            Ok(UserFieldsView { id: Some(x), ..f })
        },
        UserValue::Name(x) => if f.username is Some {
            Err(FieldErrorView::Duplicate("name"@))
        } else {
            Ok(UserFieldsView { username: Some(x), ..f })
        },
        UserValue::FirstName(x) => if f.first_name is Some {
            Err(FieldErrorView::Duplicate("firstname"@))
        } else {
            Ok(UserFieldsView { first_name: Some(x), ..f })
        },
        UserValue::LastName(x) => if f.last_name is Some {
            Err(FieldErrorView::Duplicate("lastname"@))
        } else {
            Ok(UserFieldsView { last_name: Some(x), ..f })
        },
        UserValue::YearRegistered(x) => if f.year_registered is Some {
            Err(FieldErrorView::Duplicate("yearregistered"@))
        } else {
            Ok(UserFieldsView { year_registered: Some(x), ..f })
        },
        UserValue::LastLogin(x) => if f.last_login is Some {
            Err(FieldErrorView::Duplicate("lastlogin"@))
        } else {
            Ok(UserFieldsView { last_login: Some(x), ..f })
        },
        UserValue::StateOrProvince(x) => if f.state_or_province is Some {
            Err(FieldErrorView::Duplicate("stateorprovince"@))
        } else {
            Ok(UserFieldsView { state_or_province: Some(x), ..f })
        },
        UserValue::Country(x) => if f.country is Some {
            Err(FieldErrorView::Duplicate("country"@))
        } else {
            Ok(UserFieldsView { country: Some(x), ..f })
        },
        UserValue::WebAddress(x) => if f.web_address is Some {
            Err(FieldErrorView::Duplicate("webaddress"@))
        } else {
            Ok(UserFieldsView { web_address: Some(x), ..f })
        },
        UserValue::XboxAccount(x) => if f.xbox_account is Some {
            Err(FieldErrorView::Duplicate("xboxaccount"@))
        } else {
            Ok(UserFieldsView { xbox_account: Some(x), ..f })
        },
        UserValue::WiiAccount(x) => if f.wii_account is Some {
            Err(FieldErrorView::Duplicate("wiiaccount"@))
        } else {
            Ok(UserFieldsView { wii_account: Some(x), ..f })
        },
        UserValue::PsnAccount(x) => if f.psn_account is Some {
            Err(FieldErrorView::Duplicate("psnaccount"@))
        } else {
            Ok(UserFieldsView { psn_account: Some(x), ..f })
        },
        UserValue::BattlenetAccount(x) => if f.battlenet_account is Some {
            Err(FieldErrorView::Duplicate("battlenetaccount"@))
        } else {
            Ok(UserFieldsView { battlenet_account: Some(x), ..f })
        },
        UserValue::SteamAccount(x) => if f.steam_account is Some {
            Err(FieldErrorView::Duplicate("steamaccount"@))
        } else {
            Ok(UserFieldsView { steam_account: Some(x), ..f })
        },
        UserValue::TradeRating(x) => if f.trade_rating is Some {
            Err(FieldErrorView::Duplicate("traderating"@))
        } else {
            Ok(UserFieldsView { trade_rating: Some(x), ..f })
        },
        UserValue::Top(x) => if f.top_list is Some {
            Err(FieldErrorView::Duplicate("top"@))
        } else {
            Ok(UserFieldsView { top_list: Some(x), ..f })
        },
        UserValue::Hot(x) => if f.hot_list is Some {
            Err(FieldErrorView::Duplicate("hot"@))
        } else {
            Ok(UserFieldsView { hot_list: Some(x), ..f })
        },
        UserValue::Guilds(x) => if f.guilds is Some {
            Err(FieldErrorView::Duplicate("guilds"@))
        } else {
            Ok(UserFieldsView { guilds: Some(x), ..f })
        },
        UserValue::Buddies(x) => if f.buddies is Some {
            Err(FieldErrorView::Duplicate("buddies"@))
        } else {
            Ok(UserFieldsView { buddies: Some(x), ..f })
        },
        UserValue::TermsOfUse(_) => Ok(f),
        UserValue::AvatarLink(x) => if f.avatar_link is Some {
            Err(FieldErrorView::Duplicate("avatarlink"@))
        } else {
            Ok(UserFieldsView { avatar_link: if x@ == "N/A"@ { None } else { Some(x) }, ..f })
        },
    }
}

/// The key under which a value is given.
pub open spec fn user_value_key<D>(v: UserValue<D>) -> UserField {
    match v {
        UserValue::Id(..) => UserField::Id,
        UserValue::Name(..) => UserField::Name,
        UserValue::FirstName(..) => UserField::FirstName,
        UserValue::LastName(..) => UserField::LastName,
        UserValue::YearRegistered(..) => UserField::YearRegistered,
        UserValue::LastLogin(..) => UserField::LastLogin,
        UserValue::StateOrProvince(..) => UserField::StateOrProvince,
        UserValue::Country(..) => UserField::Country,
        UserValue::WebAddress(..) => UserField::WebAddress,
        UserValue::XboxAccount(..) => UserField::XboxAccount,
        UserValue::WiiAccount(..) => UserField::WiiAccount,
        UserValue::PsnAccount(..) => UserField::PsnAccount,
        UserValue::BattlenetAccount(..) => UserField::BattlenetAccount,
        UserValue::SteamAccount(..) => UserField::SteamAccount,
        UserValue::TradeRating(..) => UserField::TradeRating,
        UserValue::Top(..) => UserField::Top,
        UserValue::Hot(..) => UserField::Hot,
        UserValue::Guilds(..) => UserField::Guilds,
        UserValue::Buddies(..) => UserField::Buddies,
        UserValue::TermsOfUse(..) => UserField::TermsOfUse,
        UserValue::AvatarLink(..) => UserField::AvatarLink,
    }
}

/// Law: the check made when a key of a user is read refuses exactly what taking its
/// value would refuse as given twice: when the check fails, taking the value fails alike.
pub proof fn law_user_key_check_agrees<D>(f: UserFieldsView<D>, v: UserValue<D>)
    ensures
        user_key_check(f, user_value_key(v)) matches Err(e) ==> user_accept(f, v)
            == Err::<UserFieldsView<D>, FieldErrorView>(e),
{
}

impl<D> UserFields<D> {
    /// No field read yet.
    pub fn new() -> (r: Self)
        ensures
            r@ == (UserFieldsView::<D> {
                id: None,
                username: None,
                first_name: None,
                last_name: None,
                year_registered: None,
                last_login: None,
                state_or_province: None,
                country: None,
                web_address: None,
                xbox_account: None,
                wii_account: None,
                psn_account: None,
                battlenet_account: None,
                steam_account: None,
                trade_rating: None,
                top_list: None,
                hot_list: None,
                guilds: None,
                buddies: None,
                avatar_link: None,
            }),
    {
        UserFields {
            id: None,
            username: None,
            first_name: None,
            last_name: None,
            year_registered: None,
            last_login: None,
            state_or_province: None,
            country: None,
            web_address: None,
            xbox_account: None,
            wii_account: None,
            psn_account: None,
            battlenet_account: None,
            steam_account: None,
            trade_rating: None,
            top_list: None,
            hot_list: None,
            guilds: None,
            buddies: None,
            avatar_link: None,
        }
    }

    /// Checks that a key may come next, before its value is read.
    pub fn check_key(&self, key: UserField) -> (r: Result<(), FieldError>)
        ensures
            result_view(r) == user_key_check(self@, key),
    {
        match key {
            UserField::Id => vacant(&self.id, "id"),
            UserField::Name => vacant(&self.username, "name"),
            UserField::FirstName => vacant(&self.first_name, "firstname"),
            UserField::LastName => vacant(&self.last_name, "lastname"),
            UserField::YearRegistered => vacant(&self.year_registered, "yearregistered"),
            UserField::LastLogin => vacant(&self.last_login, "lastlogin"),
            UserField::StateOrProvince => vacant(&self.state_or_province, "stateorprovince"),
            UserField::Country => vacant(&self.country, "country"),
            UserField::WebAddress => vacant(&self.web_address, "webaddress"),
            UserField::XboxAccount => vacant(&self.xbox_account, "xboxaccount"),
            UserField::WiiAccount => vacant(&self.wii_account, "wiiaccount"),
            UserField::PsnAccount => vacant(&self.psn_account, "psnaccount"),
            UserField::BattlenetAccount => vacant(&self.battlenet_account, "battlenetaccount"),
            UserField::SteamAccount => vacant(&self.steam_account, "steamaccount"),
            UserField::TradeRating => vacant(&self.trade_rating, "traderating"),
            UserField::Top => vacant(&self.top_list, "top"),
            UserField::Hot => vacant(&self.hot_list, "hot"),
            UserField::Guilds => vacant(&self.guilds, "guilds"),
            UserField::Buddies => vacant(&self.buddies, "buddies"),
            UserField::TermsOfUse => Ok(()),
            UserField::AvatarLink => vacant(&self.avatar_link, "avatarlink"),
        }
    }

    /// Takes the value of one more field.
    pub fn accept(&mut self, value: UserValue<D>) -> (r: Result<(), FieldError>)
        ensures
            match user_accept(old(self)@, value) {
                Ok(f) => r is Ok && final(self)@ == f,
                Err(e) => r matches Err(x) && x@ == e && final(self)@ == old(self)@,
            },
    {
        match value {
            UserValue::Id(x) => set_once(&mut self.id, x, "id"),
            UserValue::Name(x) => set_once(&mut self.username, x, "name"),
            UserValue::FirstName(x) => set_once(&mut self.first_name, x, "firstname"),
            UserValue::LastName(x) => set_once(&mut self.last_name, x, "lastname"),
            UserValue::YearRegistered(x) => set_once(&mut self.year_registered, x, "yearregistered"),
            UserValue::LastLogin(x) => set_once(&mut self.last_login, x, "lastlogin"),
            UserValue::StateOrProvince(x) => set_once(&mut self.state_or_province, x, "stateorprovince"),
            UserValue::Country(x) => set_once(&mut self.country, x, "country"),
            UserValue::WebAddress(x) => set_once(&mut self.web_address, x, "webaddress"),
            UserValue::XboxAccount(x) => set_once(&mut self.xbox_account, x, "xboxaccount"),
            UserValue::WiiAccount(x) => set_once(&mut self.wii_account, x, "wiiaccount"),
            UserValue::PsnAccount(x) => set_once(&mut self.psn_account, x, "psnaccount"),
            UserValue::BattlenetAccount(x) => set_once(&mut self.battlenet_account, x, "battlenetaccount"),
            UserValue::SteamAccount(x) => set_once(&mut self.steam_account, x, "steamaccount"),
            UserValue::TradeRating(x) => set_once(&mut self.trade_rating, x, "traderating"),
            UserValue::Top(x) => set_once(&mut self.top_list, x, "top"),
            UserValue::Hot(x) => set_once(&mut self.hot_list, x, "hot"),
            UserValue::Guilds(x) => set_once(&mut self.guilds, x, "guilds"),
            UserValue::Buddies(x) => set_once(&mut self.buddies, x, "buddies"),
            UserValue::TermsOfUse(_) => Ok(()),
            UserValue::AvatarLink(x) => {
                if self.avatar_link.is_some() {
                    return Err(FieldError::Duplicate("avatarlink"));
                }
                self.avatar_link = if is_not_applicable(x.as_str()) {
                    None
                } else {
                    Some(x)
                };
                Ok(())
            },
        }
    }

    /// The finished value, once every field that must be given was read.
    pub fn finish(self) -> (r: Result<User<D>, FieldError>)
        ensures
            match user_finish_error(self@) {
                Some(e) => r matches Err(x) && x@ == e,
                None => r matches Ok(x) && user_built(x, self@),
            },
    {
        let ghost f = self@;
        let id = match self.id {
            Some(x) => x,
            None => {
                return Err(FieldError::Missing("id"));
            },
        };
        let username = match self.username {
            Some(x) => x,
            None => {
                return Err(FieldError::Missing("name"));
            },
        };
        let first_name = match self.first_name {
            Some(x) => x,
            None => {
                return Err(FieldError::Missing("firstname"));
            },
        };
        let last_name = match self.last_name {
            Some(x) => x,
            None => {
                return Err(FieldError::Missing("lastname"));
            },
        };
        let year_registered = match self.year_registered {
            Some(x) => x,
            None => {
                return Err(FieldError::Missing("yearregistered"));
            },
        };
        let last_login = match self.last_login {
            Some(x) => x,
            None => {
                return Err(FieldError::Missing("lastlogin"));
            },
        };
        let trade_rating = match self.trade_rating {
            Some(x) => x,
            None => {
                return Err(FieldError::Missing("traderating"));
            },
        };
        Ok(User {
            id: id,
            username: username,
            first_name: first_name,
            last_name: last_name,
            avatar_link: self.avatar_link,
            year_registered: year_registered,
            last_login: last_login,
            state_or_province: drop_empty(self.state_or_province),
            country: drop_empty(self.country),
            web_address: drop_empty(self.web_address),
            xbox_account: drop_empty(self.xbox_account),
            wii_account: drop_empty(self.wii_account),
            psn_account: drop_empty(self.psn_account),
            battlenet_account: drop_empty(self.battlenet_account),
            steam_account: drop_empty(self.steam_account),
            trade_rating: trade_rating,
            top_list: match self.top_list { Some(v) => v, None => Vec::new() },
            hot_list: match self.hot_list { Some(v) => v, None => Vec::new() },
            buddies: match self.buddies { Some(b) => b, None => BuddyList { total: 0, page: 0, buddies: Vec::new() } },
            guilds: match self.guilds { Some(g) => g, None => GuildList { total: 0, page: 0, guilds: Vec::new() } },
        })
    }
}

/// Law: the first name read goes to the first name and the last name read to the last name,
/// each leaving the other as it was; and a finished user has the first name, last name, ID and
/// user name that were read, and each of its places and accounts from the field of that name.
pub proof fn law_user_fields_go_to_their_places<D>(f: UserFieldsView<D>, a: String, b: String, x: User<D>)
    ensures
        f.first_name is None ==> (user_accept(f, UserValue::FirstName(a)) matches Ok(g)
            && g.first_name == Some(a) && g.last_name == f.last_name),
        f.last_name is None ==> (user_accept(f, UserValue::LastName(b)) matches Ok(g)
            && g.last_name == Some(b) && g.first_name == f.first_name),
        user_built(x, f) && f.first_name == Some(a) && f.last_name == Some(b) ==> x.first_name == a
            && x.last_name == b,
        user_built(x, f) ==> x.id == f.id.unwrap() && x.username == f.username.unwrap()
            && x.state_or_province == none_if_empty(f.state_or_province) && x.country
            == none_if_empty(f.country) && x.web_address == none_if_empty(f.web_address)
            && x.xbox_account == none_if_empty(f.xbox_account) && x.wii_account == none_if_empty(
            f.wii_account,
        ) && x.psn_account == none_if_empty(f.psn_account) && x.battlenet_account
            == none_if_empty(f.battlenet_account) && x.steam_account == none_if_empty(
            f.steam_account,
        ),
{
}

/// Law: each value of a user goes to its own field, once, a second one being refused as given
/// twice; and a finished user takes each field from the value read for it.
pub proof fn law_user_values_go_to_their_fields<D>(f: UserFieldsView<D>, x: User<D>)
    ensures
        forall|v: u64| #[trigger] user_accept(f, UserValue::Id(v)) == if f.id is Some {
            Err::<UserFieldsView<D>, FieldErrorView>(FieldErrorView::Duplicate("id"@))
        } else {
            Ok::<UserFieldsView<D>, FieldErrorView>((UserFieldsView { id: Some(v), ..f }))
        },
        forall|v: String| #[trigger] user_accept(f, UserValue::Name(v)) == if f.username is Some {
            Err::<UserFieldsView<D>, FieldErrorView>(FieldErrorView::Duplicate("name"@))
        } else {
            Ok::<UserFieldsView<D>, FieldErrorView>((UserFieldsView { username: Some(v), ..f }))
        },
        forall|v: String| #[trigger] user_accept(f, UserValue::FirstName(v)) == if f.first_name is Some {
            Err::<UserFieldsView<D>, FieldErrorView>(FieldErrorView::Duplicate("firstname"@))
        } else {
            Ok::<UserFieldsView<D>, FieldErrorView>((UserFieldsView { first_name: Some(v), ..f }))
        },
        forall|v: String| #[trigger] user_accept(f, UserValue::LastName(v)) == if f.last_name is Some {
            Err::<UserFieldsView<D>, FieldErrorView>(FieldErrorView::Duplicate("lastname"@))
        } else {
            Ok::<UserFieldsView<D>, FieldErrorView>((UserFieldsView { last_name: Some(v), ..f }))
        },
        forall|v: i64| #[trigger] user_accept(f, UserValue::YearRegistered(v)) == if f.year_registered is Some {
            Err::<UserFieldsView<D>, FieldErrorView>(FieldErrorView::Duplicate("yearregistered"@))
        } else {
            Ok::<UserFieldsView<D>, FieldErrorView>((UserFieldsView { year_registered: Some(v), ..f }))
        },
        forall|v: D| #[trigger] user_accept(f, UserValue::LastLogin(v)) == if f.last_login is Some {
            Err::<UserFieldsView<D>, FieldErrorView>(FieldErrorView::Duplicate("lastlogin"@))
        } else {
            Ok::<UserFieldsView<D>, FieldErrorView>((UserFieldsView { last_login: Some(v), ..f }))
        },
        forall|v: String| #[trigger] user_accept(f, UserValue::StateOrProvince(v)) == if f.state_or_province is Some {
            Err::<UserFieldsView<D>, FieldErrorView>(FieldErrorView::Duplicate("stateorprovince"@))
        } else {
            Ok::<UserFieldsView<D>, FieldErrorView>((UserFieldsView { state_or_province: Some(v), ..f }))
        },
        forall|v: String| #[trigger] user_accept(f, UserValue::Country(v)) == if f.country is Some {
            Err::<UserFieldsView<D>, FieldErrorView>(FieldErrorView::Duplicate("country"@))
        } else {
            Ok::<UserFieldsView<D>, FieldErrorView>((UserFieldsView { country: Some(v), ..f }))
        },
        forall|v: String| #[trigger] user_accept(f, UserValue::WebAddress(v)) == if f.web_address is Some {
            Err::<UserFieldsView<D>, FieldErrorView>(FieldErrorView::Duplicate("webaddress"@))
        } else {
            Ok::<UserFieldsView<D>, FieldErrorView>((UserFieldsView { web_address: Some(v), ..f }))
        },
        forall|v: String| #[trigger] user_accept(f, UserValue::XboxAccount(v)) == if f.xbox_account is Some {
            Err::<UserFieldsView<D>, FieldErrorView>(FieldErrorView::Duplicate("xboxaccount"@))
        } else {
            Ok::<UserFieldsView<D>, FieldErrorView>((UserFieldsView { xbox_account: Some(v), ..f }))
        },
        forall|v: String| #[trigger] user_accept(f, UserValue::WiiAccount(v)) == if f.wii_account is Some {
            Err::<UserFieldsView<D>, FieldErrorView>(FieldErrorView::Duplicate("wiiaccount"@))
        } else {
            Ok::<UserFieldsView<D>, FieldErrorView>((UserFieldsView { wii_account: Some(v), ..f }))
        },
        forall|v: String| #[trigger] user_accept(f, UserValue::PsnAccount(v)) == if f.psn_account is Some {
            Err::<UserFieldsView<D>, FieldErrorView>(FieldErrorView::Duplicate("psnaccount"@))
        } else {
            Ok::<UserFieldsView<D>, FieldErrorView>((UserFieldsView { psn_account: Some(v), ..f }))
        },
        forall|v: String| #[trigger] user_accept(f, UserValue::BattlenetAccount(v)) == if f.battlenet_account is Some {
            Err::<UserFieldsView<D>, FieldErrorView>(FieldErrorView::Duplicate("battlenetaccount"@))
        } else {
            Ok::<UserFieldsView<D>, FieldErrorView>((UserFieldsView { battlenet_account: Some(v), ..f }))
        },
        forall|v: String| #[trigger] user_accept(f, UserValue::SteamAccount(v)) == if f.steam_account is Some {
            Err::<UserFieldsView<D>, FieldErrorView>(FieldErrorView::Duplicate("steamaccount"@))
        } else {
            Ok::<UserFieldsView<D>, FieldErrorView>((UserFieldsView { steam_account: Some(v), ..f }))
        },
        forall|v: u64| #[trigger] user_accept(f, UserValue::TradeRating(v)) == if f.trade_rating is Some {
            Err::<UserFieldsView<D>, FieldErrorView>(FieldErrorView::Duplicate("traderating"@))
        } else {
            Ok::<UserFieldsView<D>, FieldErrorView>((UserFieldsView { trade_rating: Some(v), ..f }))
        },
        forall|v: Vec<ListItem>| #[trigger] user_accept(f, UserValue::Top(v)) == if f.top_list is Some {
            Err::<UserFieldsView<D>, FieldErrorView>(FieldErrorView::Duplicate("top"@))
        } else {
            Ok::<UserFieldsView<D>, FieldErrorView>((UserFieldsView { top_list: Some(v), ..f }))
        },
        forall|v: Vec<ListItem>| #[trigger] user_accept(f, UserValue::Hot(v)) == if f.hot_list is Some {
            Err::<UserFieldsView<D>, FieldErrorView>(FieldErrorView::Duplicate("hot"@))
        } else {
            Ok::<UserFieldsView<D>, FieldErrorView>((UserFieldsView { hot_list: Some(v), ..f }))
        },
        forall|v: GuildList| #[trigger] user_accept(f, UserValue::Guilds(v)) == if f.guilds is Some {
            Err::<UserFieldsView<D>, FieldErrorView>(FieldErrorView::Duplicate("guilds"@))
        } else {
            Ok::<UserFieldsView<D>, FieldErrorView>((UserFieldsView { guilds: Some(v), ..f }))
        },
        forall|v: BuddyList| #[trigger] user_accept(f, UserValue::Buddies(v)) == if f.buddies is Some {
            Err::<UserFieldsView<D>, FieldErrorView>(FieldErrorView::Duplicate("buddies"@))
        } else {
            Ok::<UserFieldsView<D>, FieldErrorView>((UserFieldsView { buddies: Some(v), ..f }))
        },
        user_built(x, f) ==> (x.id == f.id.unwrap()),
        user_built(x, f) ==> (x.username == f.username.unwrap()),
        user_built(x, f) ==> (x.first_name == f.first_name.unwrap()),
        user_built(x, f) ==> (x.last_name == f.last_name.unwrap()),
        user_built(x, f) ==> (x.avatar_link == f.avatar_link),
        user_built(x, f) ==> (x.year_registered == f.year_registered.unwrap()),
        user_built(x, f) ==> (x.last_login == f.last_login.unwrap()),
        user_built(x, f) ==> (x.state_or_province == none_if_empty(f.state_or_province)),
        user_built(x, f) ==> (x.country == none_if_empty(f.country)),
        user_built(x, f) ==> (x.web_address == none_if_empty(f.web_address)),
        user_built(x, f) ==> (x.xbox_account == none_if_empty(f.xbox_account)),
        user_built(x, f) ==> (x.wii_account == none_if_empty(f.wii_account)),
        user_built(x, f) ==> (x.psn_account == none_if_empty(f.psn_account)),
        user_built(x, f) ==> (x.battlenet_account == none_if_empty(f.battlenet_account)),
        user_built(x, f) ==> (x.steam_account == none_if_empty(f.steam_account)),
        user_built(x, f) ==> (x.trade_rating == f.trade_rating.unwrap()),
        user_built(x, f) ==> (match f.top_list { Some(v) => x.top_list == v, None => x.top_list@.len() == 0 }),
        user_built(x, f) ==> (match f.hot_list { Some(v) => x.hot_list == v, None => x.hot_list@.len() == 0 }),
        user_built(x, f) ==> (match f.buddies { Some(b) => x.buddies == b, None => x.buddies.total == 0 && x.buddies.page == 0 && x.buddies.buddies@.len() == 0 }),
        user_built(x, f) ==> (match f.guilds { Some(g) => x.guilds == g, None => x.guilds.total == 0 && x.guilds.page == 0 && x.guilds.guilds@.len() == 0 }),
{
}

} // verus!
