//! Wishlist priorities, ordered from the lowest to the highest.
use vstd::prelude::*;
use vstd::std_specs::cmp::PartialOrdSpecImpl;
use core::cmp::Ordering;

use crate::text::push_char;

verus! {

/// The priority of an item on a user's wishlist.
#[derive(Clone, Copy, Debug, PartialEq, Eq, Structural)]
pub enum WishlistPriority {
    /// Lowest priority.
    DontBuyThis,
    /// Thinking about buying it.
    ThinkingAboutIt,
    /// The default value, would like to have it.
    LikeToHave,
    /// Would love to have it.
    LoveToHave,
    /// Highest wishlist priority, a must have.
    MustHave,
}

/// The place of a priority in the order, from 0 for the lowest to 4 for the highest.
pub open spec fn priority_level(p: WishlistPriority) -> int {
    match p {
        WishlistPriority::DontBuyThis => 0,
        WishlistPriority::ThinkingAboutIt => 1,
        WishlistPriority::LikeToHave => 2,
        WishlistPriority::LoveToHave => 3,
        WishlistPriority::MustHave => 4,
    }
}

/// The text the API uses for a priority: `1` for the highest through `5` for the lowest.
pub open spec fn priority_text(p: WishlistPriority) -> Seq<char> {
    match p {
        WishlistPriority::DontBuyThis => seq!['5'],
        WishlistPriority::ThinkingAboutIt => seq!['4'],
        WishlistPriority::LikeToHave => seq!['3'],
        WishlistPriority::LoveToHave => seq!['2'],
        WishlistPriority::MustHave => seq!['1'],
    }
}

/// The priority that a text of the API names, if any.
pub open spec fn priority_from_text(s: Seq<char>) -> Option<WishlistPriority> {
    if s == seq!['5'] {
        Some(WishlistPriority::DontBuyThis)
    } else if s == seq!['4'] {
        Some(WishlistPriority::ThinkingAboutIt)
    } else if s == seq!['3'] {
        Some(WishlistPriority::LikeToHave)
    } else if s == seq!['2'] {
        Some(WishlistPriority::LoveToHave)
    } else if s == seq!['1'] {
        Some(WishlistPriority::MustHave)
    } else {
        None
    }
}

/// The order of two priorities by their level.
pub open spec fn priority_order(a: WishlistPriority, b: WishlistPriority) -> Ordering {
    if priority_level(a) < priority_level(b) {
        Ordering::Less
    } else if priority_level(a) == priority_level(b) {
        Ordering::Equal
    } else {
        Ordering::Greater
    }
}

impl WishlistPriority {
    /// The place of this priority in the order, 0 for the lowest.
    pub fn level(&self) -> (l: u8)
        ensures
            l == priority_level(*self),
    {
        match self {
            WishlistPriority::DontBuyThis => 0,
            WishlistPriority::ThinkingAboutIt => 1,
            WishlistPriority::LikeToHave => 2,
            WishlistPriority::LoveToHave => 3,
            WishlistPriority::MustHave => 4,
        }
    }

    /// The text the API uses for this priority, `1` for the highest to `5` for the lowest.
    pub fn to_text(&self) -> (s: String)
        ensures
            s@ == priority_text(*self),
    {
        let mut s = String::new();
        let c = match self {
            WishlistPriority::DontBuyThis => '5',
            WishlistPriority::ThinkingAboutIt => '4',
            WishlistPriority::LikeToHave => '3',
            WishlistPriority::LoveToHave => '2',
            WishlistPriority::MustHave => '1',
        };
        push_char(&mut s, c);
        s
    }

    /// Reads the text the API uses for a priority, `1` to `5`. Any other text gives `None`.
    pub fn from_text(s: &str) -> (r: Option<WishlistPriority>)
        ensures
            r == priority_from_text(s@),
    {
        let cs = crate::text::chars_of(s);
        if cs.len() != 1 {
            proof {
                assert(s@.len() != 1);
                assert(s@ != seq!['5'] && s@ != seq!['4'] && s@ != seq!['3'] && s@ != seq!['2']
                    && s@ != seq!['1']);
            }
            return None;
        }
        let c = cs[0];
        assert(s@ =~= seq![c]);
        if c == '5' {
            Some(WishlistPriority::DontBuyThis)
        } else if c == '4' {
            Some(WishlistPriority::ThinkingAboutIt)
        } else if c == '3' {
            Some(WishlistPriority::LikeToHave)
        } else if c == '2' {
            Some(WishlistPriority::LoveToHave)
        } else if c == '1' {
            Some(WishlistPriority::MustHave)
        } else {
            assert(s@ != seq!['5'] && s@ != seq!['4'] && s@ != seq!['3'] && s@ != seq!['2']
                && s@ != seq!['1']);
            None
        }
    }
}

impl PartialOrd for WishlistPriority {
    fn partial_cmp(&self, other: &Self) -> (r: Option<Ordering>) {
        let a = self.level();
        let b = other.level();
        if a < b {
            Some(Ordering::Less)
        } else if a == b {
            Some(Ordering::Equal)
        } else {
            Some(Ordering::Greater)
        }
    }
}

impl PartialOrdSpecImpl for WishlistPriority {
    open spec fn obeys_partial_cmp_spec() -> bool {
        true
    }

    open spec fn partial_cmp_spec(&self, other: &Self) -> Option<Ordering> {
        Some(priority_order(*self, *other))
    }
}

/// Priorities are ordered by their level: a priority is less than another exactly when its
/// level is lower, so "don't buy this" is the lowest and "must have" the highest.
pub proof fn law_priority_order(a: WishlistPriority, b: WishlistPriority)
    ensures
        (priority_order(a, b) == Ordering::Less) <==> priority_level(a) < priority_level(b),
        (priority_order(a, b) == Ordering::Equal) <==> a == b,
        priority_order(a, b) == Ordering::Less <==> priority_order(b, a) == Ordering::Greater,
{
}

/// Reading the text of a priority gives back that priority.
pub proof fn law_priority_text_round_trip(p: WishlistPriority)
    ensures
        priority_from_text(priority_text(p)) == Some(p),
{
    let t = priority_text(p);
    assert(t.len() == 1);
    assert(seq!['5'][0] == '5' && seq!['4'][0] == '4' && seq!['3'][0] == '3' && seq!['2'][0] == '2');
    if t[0] != '5' {
        assert(t != seq!['5']);
    }
    if t[0] != '4' {
        assert(t != seq!['4']);
    }
    if t[0] != '3' {
        assert(t != seq!['3']);
    }
    if t[0] != '2' {
        assert(t != seq!['2']);
    }
}

} // verus!
