//! Types shared by the endpoints: item types and the small name and ID records that the
//! API returns in many places.
use vstd::prelude::*;

use crate::text::{owned, same_text};

verus! {

/// The type of an item. A board game, an expansion, an accessory, or one of the kinds of
/// entries that the API links games to.
#[derive(Clone, Copy, Debug, PartialEq, Eq, Structural)]
pub enum ItemType {
    /// A board game. In many cases the underlying API will also include
    /// board game expansions under this type, unless explicitly excluded.
    BoardGame,
    /// A board game expansion.
    BoardGameExpansion,
    /// An accessory for a board game, such as a playmat or miniatures.
    BoardGameAccessory,
    /// A designer of a board game.
    BoardGameDesigner,
    /// A publisher of a board game.
    BoardGamePublisher,
    /// An artist of a board game.
    BoardGameArtist,
    /// A group of games, such as all games under an IP or with a certain mechanic.
    BoardGameFamily,
    /// A category for a game, a broad description mostly based on the theme.
    BoardGameCategory,
    /// A mechanic for a game, such as worker placement.
    BoardGameMechanic,
    /// A different edition of an existing game.
    BoardGameCompilation,
    /// A different implementation of an existing game.
    BoardGameImplementation,
    /// A different version of a game, typically a translation.
    BoardGameVersion,
    /// A language that a game supports.
    Language,
}

/// The text of an item type as the API writes it.
pub open spec fn item_type_text_spec(t: ItemType) -> Seq<char> {
    match t {
        ItemType::BoardGame => "boardgame"@,
        ItemType::BoardGameExpansion => "boardgameexpansion"@,
        ItemType::BoardGameAccessory => "boardgameaccessory"@,
        ItemType::BoardGameDesigner => "boardgamedesigner"@,
        ItemType::BoardGamePublisher => "boardgamepublisher"@,
        ItemType::BoardGameArtist => "boardgameartist"@,
        ItemType::BoardGameFamily => "boardgamefamily"@,
        ItemType::BoardGameCategory => "boardgamecategory"@,
        ItemType::BoardGameMechanic => "boardgamemechanic"@,
        ItemType::BoardGameCompilation => "boardgamecompilation"@,
        ItemType::BoardGameImplementation => "boardgameimplementation"@,
        ItemType::BoardGameVersion => "boardgameversion"@,
        ItemType::Language => "language"@,
    }
}

/// The name of the variant, as `{:?}` writes it.
pub open spec fn item_type_debug_spec(t: ItemType) -> Seq<char> {
    match t {
        ItemType::BoardGame => "BoardGame"@,
        ItemType::BoardGameExpansion => "BoardGameExpansion"@,
        ItemType::BoardGameAccessory => "BoardGameAccessory"@,
        ItemType::BoardGameDesigner => "BoardGameDesigner"@,
        ItemType::BoardGamePublisher => "BoardGamePublisher"@,
        ItemType::BoardGameArtist => "BoardGameArtist"@,
        ItemType::BoardGameFamily => "BoardGameFamily"@,
        ItemType::BoardGameCategory => "BoardGameCategory"@,
        ItemType::BoardGameMechanic => "BoardGameMechanic"@,
        ItemType::BoardGameCompilation => "BoardGameCompilation"@,
        ItemType::BoardGameImplementation => "BoardGameImplementation"@,
        ItemType::BoardGameVersion => "BoardGameVersion"@,
        ItemType::Language => "Language"@,
    }
}

/// The item type whose text, as the API writes it, is the given text, if there is one.
pub open spec fn item_type_of_text(s: Seq<char>) -> Option<ItemType> {
    if exists|t: ItemType| item_type_text_spec(t) == s {
        Some(choose|t: ItemType| item_type_text_spec(t) == s)
    } else {
        None
    }
}

/// The length of an item type's text and the character by which it is told apart from the
/// others of that length: the tenth, after `boardgame`, or the first where it is shorter.
spec fn item_type_text_key(t: ItemType) -> (nat, char) {
    match t {
        ItemType::BoardGame => (9, 'b'),
        ItemType::BoardGameExpansion => (18, 'e'),
        ItemType::BoardGameAccessory => (18, 'a'),
        ItemType::BoardGameDesigner => (17, 'd'),
        ItemType::BoardGamePublisher => (18, 'p'),
        ItemType::BoardGameArtist => (15, 'a'),
        ItemType::BoardGameFamily => (15, 'f'),
        ItemType::BoardGameCategory => (17, 'c'),
        ItemType::BoardGameMechanic => (17, 'm'),
        ItemType::BoardGameCompilation => (20, 'c'),
        ItemType::BoardGameImplementation => (23, 'i'),
        ItemType::BoardGameVersion => (16, 'v'),
        ItemType::Language => (8, 'l'),
    }
}

/// Each item type's text has the length and the telling character that its key gives.
proof fn lemma_item_type_text_key(t: ItemType)
    ensures
        item_type_text_spec(t).len() == item_type_text_key(t).0,
        item_type_text_spec(t)[if item_type_text_key(t).0 > 9 {
            9
        } else {
            0
        }] == item_type_text_key(t).1,
{
    match t {
        ItemType::BoardGame => {
            reveal_strlit("boardgame");
        },
        ItemType::BoardGameExpansion => {
            reveal_strlit("boardgameexpansion");
        },
        ItemType::BoardGameAccessory => {
            reveal_strlit("boardgameaccessory");
        },
        ItemType::BoardGameDesigner => {
            reveal_strlit("boardgamedesigner");
        },
        ItemType::BoardGamePublisher => {
            reveal_strlit("boardgamepublisher");
        },
        ItemType::BoardGameArtist => {
            reveal_strlit("boardgameartist");
        },
        ItemType::BoardGameFamily => {
            reveal_strlit("boardgamefamily");
        },
        ItemType::BoardGameCategory => {
            reveal_strlit("boardgamecategory");
        },
        ItemType::BoardGameMechanic => {
            reveal_strlit("boardgamemechanic");
        },
        ItemType::BoardGameCompilation => {
            reveal_strlit("boardgamecompilation");
        },
        ItemType::BoardGameImplementation => {
            reveal_strlit("boardgameimplementation");
        },
        ItemType::BoardGameVersion => {
            reveal_strlit("boardgameversion");
        },
        ItemType::Language => {
            reveal_strlit("language");
        },
    }
}

/// Distinct item types have distinct texts.
pub proof fn law_item_type_texts_distinct(a: ItemType, b: ItemType)
    requires
        a != b,
    ensures
        item_type_text_spec(a) != item_type_text_spec(b),
{
    lemma_item_type_text_key(a);
    lemma_item_type_text_key(b);
}

/// Reading an item type's text gives back that item type.
pub proof fn law_item_type_text_read_back(t: ItemType)
    ensures
        item_type_of_text(item_type_text_spec(t)) == Some(t),
{
    let s = item_type_text_spec(t);
    assert(item_type_text_spec(t) == s);
    let u = choose|u: ItemType| item_type_text_spec(u) == s;
    if u != t {
        law_item_type_texts_distinct(u, t);
    }
}

/// A text with each ASCII capital letter made small.
pub open spec fn ascii_lowercase(s: Seq<char>) -> Seq<char> {
    s.map_values(|c: char| if 'A' <= c && c <= 'Z' {
        ((c as int) + 32) as char
    } else {
        c
    })
}

/// Law: an item type's text, as the API writes it, is the name of its variant in small
/// letters.
pub proof fn law_item_type_text_is_lowercase_name(t: ItemType)
    ensures
        item_type_text_spec(t) == ascii_lowercase(item_type_debug_spec(t)),
{
    match t {
        ItemType::BoardGame => {
            reveal_strlit("BoardGame");
            reveal_strlit("boardgame");
            assert(ascii_lowercase("BoardGame"@) =~= "boardgame"@);
        },
        ItemType::BoardGameExpansion => {
            reveal_strlit("BoardGameExpansion");
            reveal_strlit("boardgameexpansion");
            assert(ascii_lowercase("BoardGameExpansion"@) =~= "boardgameexpansion"@);
        },
        ItemType::BoardGameAccessory => {
            reveal_strlit("BoardGameAccessory");
            reveal_strlit("boardgameaccessory");
            assert(ascii_lowercase("BoardGameAccessory"@) =~= "boardgameaccessory"@);
        },
        ItemType::BoardGameDesigner => {
            reveal_strlit("BoardGameDesigner");
            reveal_strlit("boardgamedesigner");
            assert(ascii_lowercase("BoardGameDesigner"@) =~= "boardgamedesigner"@);
        },
        ItemType::BoardGamePublisher => {
            reveal_strlit("BoardGamePublisher");
            reveal_strlit("boardgamepublisher");
            assert(ascii_lowercase("BoardGamePublisher"@) =~= "boardgamepublisher"@);
        },
        ItemType::BoardGameArtist => {
            reveal_strlit("BoardGameArtist");
            reveal_strlit("boardgameartist");
            assert(ascii_lowercase("BoardGameArtist"@) =~= "boardgameartist"@);
        },
        ItemType::BoardGameFamily => {
            reveal_strlit("BoardGameFamily");
            reveal_strlit("boardgamefamily");
            assert(ascii_lowercase("BoardGameFamily"@) =~= "boardgamefamily"@);
        },
        ItemType::BoardGameCategory => {
            reveal_strlit("BoardGameCategory");
            reveal_strlit("boardgamecategory");
            assert(ascii_lowercase("BoardGameCategory"@) =~= "boardgamecategory"@);
        },
        ItemType::BoardGameMechanic => {
            reveal_strlit("BoardGameMechanic");
            reveal_strlit("boardgamemechanic");
            assert(ascii_lowercase("BoardGameMechanic"@) =~= "boardgamemechanic"@);
        },
        ItemType::BoardGameCompilation => {
            reveal_strlit("BoardGameCompilation");
            reveal_strlit("boardgamecompilation");
            assert(ascii_lowercase("BoardGameCompilation"@) =~= "boardgamecompilation"@);
        },
        ItemType::BoardGameImplementation => {
            reveal_strlit("BoardGameImplementation");
            reveal_strlit("boardgameimplementation");
            assert(ascii_lowercase("BoardGameImplementation"@) =~= "boardgameimplementation"@);
        },
        ItemType::BoardGameVersion => {
            reveal_strlit("BoardGameVersion");
            reveal_strlit("boardgameversion");
            assert(ascii_lowercase("BoardGameVersion"@) =~= "boardgameversion"@);
        },
        ItemType::Language => {
            reveal_strlit("Language");
            reveal_strlit("language");
            assert(ascii_lowercase("Language"@) =~= "language"@);
        },
    }
}

impl ItemType {
    /// The text of this item type as the API writes it, e.g. `boardgame`.
    pub fn to_text(&self) -> (s: String)
        ensures
            s@ == item_type_text_spec(*self),
    {
        match self {
            ItemType::BoardGame => owned("boardgame"),
            ItemType::BoardGameExpansion => owned("boardgameexpansion"),
            ItemType::BoardGameAccessory => owned("boardgameaccessory"),
            ItemType::BoardGameDesigner => owned("boardgamedesigner"),
            ItemType::BoardGamePublisher => owned("boardgamepublisher"),
            ItemType::BoardGameArtist => owned("boardgameartist"),
            ItemType::BoardGameFamily => owned("boardgamefamily"),
            ItemType::BoardGameCategory => owned("boardgamecategory"),
            ItemType::BoardGameMechanic => owned("boardgamemechanic"),
            ItemType::BoardGameCompilation => owned("boardgamecompilation"),
            ItemType::BoardGameImplementation => owned("boardgameimplementation"),
            ItemType::BoardGameVersion => owned("boardgameversion"),
            ItemType::Language => owned("language"),
        }
    }

    /// The item type that a text names, as the API writes it, or `None` for a text that names
    /// none.
    pub fn from_text(s: &str) -> (r: Option<ItemType>)
        ensures
            r == item_type_of_text(s@),
            forall|t: ItemType| #[trigger] item_type_text_spec(t) == s@ <==> r == Some(t),
    {
        if same_text(s, "boardgame") {
            proof {
                law_item_type_text_read_back(ItemType::BoardGame);
                assert forall|t: ItemType| #[trigger] item_type_text_spec(t) == s@ implies t == ItemType::BoardGame by {
                    if t != ItemType::BoardGame {
                        law_item_type_texts_distinct(t, ItemType::BoardGame);
                    }
                }
            }
            Some(ItemType::BoardGame)
        } else if same_text(s, "boardgameexpansion") {
            proof {
                law_item_type_text_read_back(ItemType::BoardGameExpansion);
                assert forall|t: ItemType| #[trigger] item_type_text_spec(t) == s@ implies t == ItemType::BoardGameExpansion by {
                    if t != ItemType::BoardGameExpansion {
                        law_item_type_texts_distinct(t, ItemType::BoardGameExpansion);
                    }
                }
            }
            Some(ItemType::BoardGameExpansion)
        } else if same_text(s, "boardgameaccessory") {
            proof {
                law_item_type_text_read_back(ItemType::BoardGameAccessory);
                assert forall|t: ItemType| #[trigger] item_type_text_spec(t) == s@ implies t == ItemType::BoardGameAccessory by {
                    if t != ItemType::BoardGameAccessory {
                        law_item_type_texts_distinct(t, ItemType::BoardGameAccessory);
                    }
                }
            }
            Some(ItemType::BoardGameAccessory)
        } else if same_text(s, "boardgamedesigner") {
            proof {
                law_item_type_text_read_back(ItemType::BoardGameDesigner);
                assert forall|t: ItemType| #[trigger] item_type_text_spec(t) == s@ implies t == ItemType::BoardGameDesigner by {
                    if t != ItemType::BoardGameDesigner {
                        law_item_type_texts_distinct(t, ItemType::BoardGameDesigner);
                    }
                }
            }
            Some(ItemType::BoardGameDesigner)
        } else if same_text(s, "boardgamepublisher") {
            proof {
                law_item_type_text_read_back(ItemType::BoardGamePublisher);
                assert forall|t: ItemType| #[trigger] item_type_text_spec(t) == s@ implies t == ItemType::BoardGamePublisher by {
                    if t != ItemType::BoardGamePublisher {
                        law_item_type_texts_distinct(t, ItemType::BoardGamePublisher);
                    }
                }
            }
            Some(ItemType::BoardGamePublisher)
        } else if same_text(s, "boardgameartist") {
            proof {
                law_item_type_text_read_back(ItemType::BoardGameArtist);
                assert forall|t: ItemType| #[trigger] item_type_text_spec(t) == s@ implies t == ItemType::BoardGameArtist by {
                    if t != ItemType::BoardGameArtist {
                        law_item_type_texts_distinct(t, ItemType::BoardGameArtist);
                    }
                }
            }
            Some(ItemType::BoardGameArtist)
        } else if same_text(s, "boardgamefamily") {
            proof {
                law_item_type_text_read_back(ItemType::BoardGameFamily);
                assert forall|t: ItemType| #[trigger] item_type_text_spec(t) == s@ implies t == ItemType::BoardGameFamily by {
                    if t != ItemType::BoardGameFamily {
                        law_item_type_texts_distinct(t, ItemType::BoardGameFamily);
                    }
                }
            }
            Some(ItemType::BoardGameFamily)
        } else if same_text(s, "boardgamecategory") {
            proof {
                law_item_type_text_read_back(ItemType::BoardGameCategory);
                assert forall|t: ItemType| #[trigger] item_type_text_spec(t) == s@ implies t == ItemType::BoardGameCategory by {
                    if t != ItemType::BoardGameCategory {
                        law_item_type_texts_distinct(t, ItemType::BoardGameCategory);
                    }
                }
            }
            Some(ItemType::BoardGameCategory)
        } else if same_text(s, "boardgamemechanic") {
            proof {
                law_item_type_text_read_back(ItemType::BoardGameMechanic);
                assert forall|t: ItemType| #[trigger] item_type_text_spec(t) == s@ implies t == ItemType::BoardGameMechanic by {
                    if t != ItemType::BoardGameMechanic {
                        law_item_type_texts_distinct(t, ItemType::BoardGameMechanic);
                    }
                }
            }
            Some(ItemType::BoardGameMechanic)
        } else if same_text(s, "boardgamecompilation") {
            proof {
                law_item_type_text_read_back(ItemType::BoardGameCompilation);
                assert forall|t: ItemType| #[trigger] item_type_text_spec(t) == s@ implies t == ItemType::BoardGameCompilation by {
                    if t != ItemType::BoardGameCompilation {
                        law_item_type_texts_distinct(t, ItemType::BoardGameCompilation);
                    }
                }
            }
            Some(ItemType::BoardGameCompilation)
        } else if same_text(s, "boardgameimplementation") {
            proof {
                law_item_type_text_read_back(ItemType::BoardGameImplementation);
                assert forall|t: ItemType| #[trigger] item_type_text_spec(t) == s@ implies t == ItemType::BoardGameImplementation by {
                    if t != ItemType::BoardGameImplementation {
                        law_item_type_texts_distinct(t, ItemType::BoardGameImplementation);
                    }
                }
            }
            Some(ItemType::BoardGameImplementation)
        } else if same_text(s, "boardgameversion") {
            proof {
                law_item_type_text_read_back(ItemType::BoardGameVersion);
                assert forall|t: ItemType| #[trigger] item_type_text_spec(t) == s@ implies t == ItemType::BoardGameVersion by {
                    if t != ItemType::BoardGameVersion {
                        law_item_type_texts_distinct(t, ItemType::BoardGameVersion);
                    }
                }
            }
            Some(ItemType::BoardGameVersion)
        } else if same_text(s, "language") {
            proof {
                law_item_type_text_read_back(ItemType::Language);
                assert forall|t: ItemType| #[trigger] item_type_text_spec(t) == s@ implies t == ItemType::Language by {
                    if t != ItemType::Language {
                        law_item_type_texts_distinct(t, ItemType::Language);
                    }
                }
            }
            Some(ItemType::Language)
        } else {
            None
        }
    }

    /// The name of the variant, as `{:?}` writes it.
    pub fn debug_name(&self) -> (s: String)
        ensures
            s@ == item_type_debug_spec(*self),
    {
        match self {
            ItemType::BoardGame => owned("BoardGame"),
            ItemType::BoardGameExpansion => owned("BoardGameExpansion"),
            ItemType::BoardGameAccessory => owned("BoardGameAccessory"),
            ItemType::BoardGameDesigner => owned("BoardGameDesigner"),
            ItemType::BoardGamePublisher => owned("BoardGamePublisher"),
            ItemType::BoardGameArtist => owned("BoardGameArtist"),
            ItemType::BoardGameFamily => owned("BoardGameFamily"),
            ItemType::BoardGameCategory => owned("BoardGameCategory"),
            ItemType::BoardGameMechanic => owned("BoardGameMechanic"),
            ItemType::BoardGameCompilation => owned("BoardGameCompilation"),
            ItemType::BoardGameImplementation => owned("BoardGameImplementation"),
            ItemType::BoardGameVersion => owned("BoardGameVersion"),
            ItemType::Language => owned("Language"),
        }
    }
}

/// The type of an item that can be returned from the collections endpoint: a board game, an
/// expansion, or an accessory.
#[derive(Clone, Copy, Debug, PartialEq, Eq, Structural)]
pub enum CollectionItemType {
    /// A board game. The API also includes expansions under this type, unless excluded.
    BoardGame,
    /// A board game expansion.
    BoardGameExpansion,
    /// An accessory for a board game.
    BoardGameAccessory,
}

/// The text of a collection item type as the API writes it.
pub open spec fn collection_item_type_text_spec(t: CollectionItemType) -> Seq<char> {
    match t {
        CollectionItemType::BoardGame => "boardgame"@,
        CollectionItemType::BoardGameExpansion => "boardgameexpansion"@,
        CollectionItemType::BoardGameAccessory => "boardgameaccessory"@,
    }
}

impl CollectionItemType {
    /// The text of this type as the API writes it.
    pub fn to_text(&self) -> (s: String)
        ensures
            s@ == collection_item_type_text_spec(*self),
    {
        match self {
            CollectionItemType::BoardGame => owned("boardgame"),
            CollectionItemType::BoardGameExpansion => owned("boardgameexpansion"),
            CollectionItemType::BoardGameAccessory => owned("boardgameaccessory"),
        }
    }
}

/// The type of a game: a board game or an expansion of another board game.
#[derive(Clone, Copy, Debug, PartialEq, Eq, Structural)]
pub enum GameType {
    /// A board game.
    BoardGame,
    /// A board game expansion.
    BoardGameExpansion,
}

/// The text of a game type as the API writes it.
pub open spec fn game_type_text_spec(t: GameType) -> Seq<char> {
    match t {
        GameType::BoardGame => "boardgame"@,
        GameType::BoardGameExpansion => "boardgameexpansion"@,
    }
}

impl GameType {
    /// The text of this game type as the API writes it.
    pub fn to_text(&self) -> (s: String)
        ensures
            s@ == game_type_text_spec(*self),
    {
        match self {
            GameType::BoardGame => owned("boardgame"),
            GameType::BoardGameExpansion => owned("boardgameexpansion"),
        }
    }
}

/// The sub type of an item that was played: board game, expansion, and the other board game
/// kinds of things.
#[derive(Clone, Copy, Debug, PartialEq, Eq, Structural)]
pub enum ItemSubType {
    /// A board game.
    BoardGame,
    /// A board game expansion.
    BoardGameExpansion,
    /// A board game accessory.
    BoardGameAccessory,
    /// A compilation of board games.
    BoardGameCompilation,
    /// An implementation of another board game.
    BoardGameImplementation,
}

/// The text of an item sub type as the API writes it.
pub open spec fn item_sub_type_text_spec(t: ItemSubType) -> Seq<char> {
    match t {
        ItemSubType::BoardGame => "boardgame"@,
        ItemSubType::BoardGameExpansion => "boardgameexpansion"@,
        ItemSubType::BoardGameAccessory => "boardgameaccessory"@,
        ItemSubType::BoardGameCompilation => "boardgamecompilation"@,
        ItemSubType::BoardGameImplementation => "boardgameimplementation"@,
    }
}

impl ItemSubType {
    /// The text of this sub type as the API writes it.
    pub fn to_text(&self) -> (s: String)
        ensures
            s@ == item_sub_type_text_spec(*self),
    {
        match self {
            ItemSubType::BoardGame => owned("boardgame"),
            ItemSubType::BoardGameExpansion => owned("boardgameexpansion"),
            ItemSubType::BoardGameAccessory => owned("boardgameaccessory"),
            ItemSubType::BoardGameCompilation => owned("boardgamecompilation"),
            ItemSubType::BoardGameImplementation => owned("boardgameimplementation"),
        }
    }
}

/// The domain that a group of forums, or a play record, belongs to: a single item, or a family
/// of items.
#[derive(Clone, Copy, Debug, PartialEq, Eq, Structural)]
pub enum ItemDomain {
    /// A single item such as a game.
    Item,
    /// A family of items.
    Family,
}

/// The text of a domain as the API writes it.
pub open spec fn item_domain_text_spec(d: ItemDomain) -> Seq<char> {
    match d {
        ItemDomain::Item => "thing"@,
        ItemDomain::Family => "family"@,
    }
}

impl ItemDomain {
    /// The text of this domain as the API writes it.
    pub fn to_text(&self) -> (s: String)
        ensures
            s@ == item_domain_text_spec(*self),
    {
        match self {
            ItemDomain::Item => owned("thing"),
            ItemDomain::Family => owned("family"),
        }
    }
}

/// Whether a name is the primary name of a game or an alternate one.
#[derive(Clone, Copy, Debug, PartialEq, Eq, Structural)]
pub enum NameType {
    /// The primary name for a game or game family.
    Primary,
    /// An alternate name, often a translation.
    Alternate,
}

/// A game with minimal information, only the name and ID.
#[derive(Clone, Debug, PartialEq, Eq)]
pub struct Game {
    /// The ID of the game.
    pub id: u64,
    /// The name of the game.
    pub name: String,
}

/// A game accessory with minimal information, only the name and ID.
#[derive(Clone, Debug, PartialEq, Eq)]
pub struct GameAccessory {
    /// The ID of the accessory.
    pub id: u64,
    /// The name of the accessory.
    pub name: String,
}

/// A category of a game, with its ID.
#[derive(Clone, Debug, PartialEq, Eq)]
pub struct GameCategory {
    /// The ID of the category.
    pub id: u64,
    /// The name of the category.
    pub name: String,
}

/// A mechanic of a game, with its ID.
#[derive(Clone, Debug, PartialEq, Eq)]
pub struct GameMechanic {
    /// The ID of the mechanic.
    pub id: u64,
    /// The name of the mechanic.
    pub name: String,
}

/// A name and ID of a game family.
#[derive(Clone, Debug, PartialEq, Eq)]
pub struct GameFamilyName {
    /// The ID of the family.
    pub id: u64,
    /// The name of the family.
    pub name: String,
}

/// A different edition or compilation of a game.
#[derive(Clone, Debug, PartialEq, Eq)]
pub struct GameCompilation {
    /// The ID of the compilation.
    pub id: u64,
    /// The name of the compilation.
    pub name: String,
}

/// A re-implementation of a game.
#[derive(Clone, Debug, PartialEq, Eq)]
pub struct GameImplementation {
    /// The ID of the implementation.
    pub id: u64,
    /// The name of the implementation.
    pub name: String,
}

/// A designer of a game.
#[derive(Clone, Debug, PartialEq, Eq)]
pub struct GameDesigner {
    /// The ID of the designer.
    pub id: u64,
    /// The name of the designer.
    pub name: String,
}

/// A publisher of a game.
#[derive(Clone, Debug, PartialEq, Eq)]
pub struct GamePublisher {
    /// The ID of the publisher.
    pub id: u64,
    /// The name of the publisher.
    pub name: String,
}

/// An artist for a game.
#[derive(Clone, Debug, PartialEq, Eq)]
pub struct GameArtist {
    /// The ID of the artist.
    pub id: u64,
    /// The name of the artist.
    pub name: String,
}

/// A language that versions of games may support.
#[derive(Clone, Debug, PartialEq, Eq)]
pub struct Language {
    /// The ID of the language.
    pub id: u64,
    /// The name of the language, in English.
    pub name: String,
}

/// A user's username and ID.
#[derive(Clone, Debug, PartialEq, Eq)]
pub struct User {
    /// ID for the user.
    pub user_id: u64,
    /// Username, used to request collection information.
    pub username: String,
}

/// Type of a game family rank: `Subtype` for the generic family that holds all games of the
/// item's kind, `Family` for every narrower family such as party games.
#[derive(Clone, Copy, Debug, PartialEq, Eq, Structural)]
pub enum GameFamilyType {
    /// Used only for the generic family that includes all games.
    Subtype,
    /// Used for all families of games such as party games and strategy games.
    Family,
}

/// A rank a game has on the site within a family of games: a position, or not ranked.
#[derive(Clone, Copy, Debug, PartialEq, Eq, Structural)]
pub enum RankValue {
    /// The rank within a family of games, where 1 is the highest.
    Ranked(u64),
    /// The game has no rank in this family, possibly for lack of ratings.
    NotRanked,
}

} // verus!
