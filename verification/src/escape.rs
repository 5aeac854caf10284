//! Escaping of ampersands in the XML that the API returns, which it does not always escape.
use vstd::prelude::*;

use crate::text::{chars_of, push_char, push_str};

verus! {

broadcast use vstd::string::group_string_axioms;

/// The text with every `&` replaced by `&amp;`, and every other character kept.
pub open spec fn escape_amp(s: Seq<char>) -> Seq<char>
    decreases s.len(),
{
    if s.len() == 0 {
        seq![]
    } else {
        escape_amp(s.drop_last()) + (if s.last() == '&' {
            "&amp;"@
        } else {
            seq![s.last()]
        })
    }
}

/// The text with every `&amp;` replaced by `&`, read from left to right, as a replacement of
/// one text by another in a string does it.
pub open spec fn unescape_amp(s: Seq<char>) -> Seq<char>
    decreases s.len(),
{
    if s.len() == 0 {
        seq![]
    } else if s.len() >= 5 && s.take(5) == "&amp;"@ {
        seq!['&'] + unescape_amp(s.skip(5))
    } else {
        seq![s[0]] + unescape_amp(s.skip(1))
    }
}

/// Escaping a character in front of a text escapes that character and then the text.
proof fn lemma_escape_front(c: char, t: Seq<char>)
    ensures
        escape_amp(seq![c] + t) == (if c == '&' {
            "&amp;"@
        } else {
            seq![c]
        }) + escape_amp(t),
    decreases t.len(),
{
    let piece = if c == '&' {
        "&amp;"@
    } else {
        seq![c]
    };
    if t.len() == 0 {
        let s = seq![c] + t;
        assert(s =~= seq![c]);
        assert(s.drop_last() =~= Seq::<char>::empty());
        assert(s.last() == c);
        assert(escape_amp(s.drop_last()) == Seq::<char>::empty());
        assert(escape_amp(s) == escape_amp(s.drop_last()) + piece);
        assert(escape_amp(t) == Seq::<char>::empty());
        assert(piece + escape_amp(t) =~= piece);
        assert(Seq::<char>::empty() + piece =~= piece);
    } else {
        let s = seq![c] + t;
        assert(s.drop_last() =~= seq![c] + t.drop_last());
        assert(s.last() == t.last());
        lemma_escape_front(c, t.drop_last());
        assert(escape_amp(s) == escape_amp(s.drop_last()) + (if t.last() == '&' {
            "&amp;"@
        } else {
            seq![t.last()]
        }));
        let last_piece = if t.last() == '&' {
            "&amp;"@
        } else {
            seq![t.last()]
        };
        assert(escape_amp(t) == escape_amp(t.drop_last()) + last_piece);
        assert(piece + escape_amp(t.drop_last()) + last_piece =~= piece + (escape_amp(
            t.drop_last(),
        ) + last_piece));
    }
}

/// Escaping loses nothing: replacing each `&amp;` of an escaped text by `&` gives back the
/// text that was escaped.
pub proof fn law_escape_undone(s: Seq<char>)
    ensures
        unescape_amp(escape_amp(s)) == s,
    decreases s.len(),
{
    reveal_strlit("&amp;");
    if s.len() > 0 {
        let rest = s.skip(1);
        assert(s =~= seq![s[0]] + rest);
        lemma_escape_front(s[0], rest);
        law_escape_undone(rest);
        let e = escape_amp(s);
        if s[0] == '&' {
            assert(e == "&amp;"@ + escape_amp(rest));
            assert(e.take(5) =~= "&amp;"@);
            assert(e.skip(5) =~= escape_amp(rest));
            assert(unescape_amp(e) == seq!['&'] + unescape_amp(e.skip(5)));
            assert(seq!['&'] + rest =~= s);
        } else {
            assert(e == seq![s[0]] + escape_amp(rest));
            assert(e.len() >= 5 ==> e.take(5)[0] != "&amp;"@[0]);
            assert(e.len() >= 5 ==> e.take(5) != "&amp;"@);
            assert(e.skip(1) =~= escape_amp(rest));
            assert(unescape_amp(e) == seq![e[0]] + unescape_amp(e.skip(1)));
            assert(seq![s[0]] + rest =~= s);
        }
    }
}

/// A text without an ampersand is its own escape.
pub proof fn lemma_escape_without_amp(s: Seq<char>)
    requires
        !s.contains('&'),
    ensures
        escape_amp(s) == s,
    decreases s.len(),
{
    if s.len() > 0 {
        assert(!s.drop_last().contains('&')) by {
            if s.drop_last().contains('&') {
                let i = choose|i: int| 0 <= i < s.drop_last().len() && s.drop_last()[i] == '&';
                assert(s[i] == '&');
            }
        }
        lemma_escape_without_amp(s.drop_last());
        assert(s.last() != '&') by {
            assert(s[s.len() - 1] == s.last());
        }
        assert(s.drop_last() + seq![s.last()] =~= s);
    }
}

/// Escapes every ampersand in an XML text as `&amp;`, leaving everything else as it was.
pub fn escape_xml(xml: &str) -> (r: String)
    ensures
        r@ == escape_amp(xml@),
        !xml@.contains('&') ==> r@ == xml@,
{
    let cs = chars_of(xml);
    let mut r = String::new();
    let mut i: usize = 0;
    while i < cs.len()
        invariant
            i <= cs.len(),
            cs@ == xml@,
            r@ == escape_amp(xml@.take(i as int)),
        decreases cs.len() - i,
    {
        let c = cs[i];
        assert(xml@.take(i + 1).drop_last() =~= xml@.take(i as int));
        assert(xml@.take(i + 1).last() == c);
        if c == '&' {
            push_str(&mut r, "&amp;");
        } else {
            push_char(&mut r, c);
        }
        i = i + 1;
    }
    assert(xml@.take(cs.len() as int) =~= xml@);
    proof {
        if !xml@.contains('&') {
            lemma_escape_without_amp(xml@);
        }
    }
    r
}

} // verus!
