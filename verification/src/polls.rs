//! The community polls on a game: the best player count, the youngest suitable age, and how
//! much the game depends on its language.
use vstd::prelude::*;

use crate::decode::{result_view, FieldError, FieldErrorView};
use crate::text::{
    concat, decimal, ends_with, int_parse_error_text, owned, parse_outcome, parse_unsigned,
    push_str, remove_char, same_text, strip_suffix_text, without_char, write_decimal, all_digits,
    is_digit, lemma_decimal_digits, law_decimal_parse_round_trip, IntParseError,
};

verus! {

broadcast use vstd::string::group_string_axioms;

/// A number of players, as voted on for the best player count of a game: an exact number, or
/// a number and above.
#[derive(Clone, Copy, Debug, PartialEq, Eq, Structural)]
pub enum PlayerCount {
    /// An exact number of players.
    Players(u64),
    /// This number of players or above.
    PlayersOrAbove(u64),
}

/// The message for a player count whose number does not parse.
pub open spec fn player_count_parse_message(e: crate::text::IntParseError) -> Seq<char> {
    "unable to parse player count to u64: "@ + int_parse_error_text(e)
}

/// What a player count field holds: a number, or a number followed by `+` for that number and
/// above (every `+` is then dropped before the number is read).
pub open spec fn player_count_spec(s: Seq<char>) -> Result<PlayerCount, FieldErrorView> {
    if s.len() == 0 {
        Err(FieldErrorView::Custom("expected player count but got empty string"@))
    } else if s.last() == '+' {
        match parse_outcome(without_char(s, '+'), u64::MAX as nat) {
            Ok(n) => Ok(PlayerCount::PlayersOrAbove(n as u64)),
            Err(e) => Err(FieldErrorView::Custom(player_count_parse_message(e))),
        }
    } else {
        match parse_outcome(s, u64::MAX as nat) {
            Ok(n) => Ok(PlayerCount::Players(n as u64)),
            Err(e) => Err(FieldErrorView::Custom(player_count_parse_message(e))),
        }
    }
}

impl PlayerCount {
    /// Reads a player count field, such as `3` or `5+`.
    pub fn from_text(s: &str) -> (r: Result<PlayerCount, FieldError>)
        ensures
            result_view(r) == player_count_spec(s@),
    {
        let cs = crate::text::chars_of(s);
        if cs.len() == 0 {
            return Err(FieldError::Custom(owned("expected player count but got empty string")));
        }
        let last = cs[cs.len() - 1];
        if last == '+' {
            let digits = remove_char(s, '+');
            match parse_unsigned(digits.as_str(), u64::MAX) {
                Ok(n) => Ok(PlayerCount::PlayersOrAbove(n)),
                Err(e) => {
                    let m = e.message();
                    Err(FieldError::Custom(concat("unable to parse player count to u64: ", m.as_str())))
                },
            }
        } else {
            match parse_unsigned(s, u64::MAX) {
                Ok(n) => Ok(PlayerCount::Players(n)),
                Err(e) => {
                    let m = e.message();
                    Err(FieldError::Custom(concat("unable to parse player count to u64: ", m.as_str())))
                },
            }
        }
    }
}

/// A youngest suitable age for playing a game: an exact age, or an age and above.
#[derive(Clone, Copy, Debug, PartialEq, Eq, Structural)]
pub enum PlayerAge {
    /// An exact player age.
    Age(u64),
    /// This age or above.
    AgeOrAbove(u64),
}

/// What a player age option holds: a number followed by ` and up`, or a number.
pub open spec fn player_age_spec(s: Seq<char>) -> Result<PlayerAge, Seq<char>> {
    if ends_with(s, " and up"@) {
        match parse_outcome(s.subrange(0, s.len() - 7), u64::MAX as nat) {
            Ok(n) => Ok(PlayerAge::AgeOrAbove(n as u64)),
            Err(e) => Err("unable to parse player age to u64: "@ + int_parse_error_text(e)),
        }
    } else {
        match parse_outcome(s, u64::MAX as nat) {
            Ok(n) => Ok(PlayerAge::Age(n as u64)),
            Err(e) => Err("unable to parse player count to u64: "@ + int_parse_error_text(e)),
        }
    }
}

impl PlayerAge {
    /// Reads a player age option, such as `12` or `21 and up`.
    pub fn try_from(s: String) -> (r: Result<PlayerAge, String>)
        ensures
            match player_age_spec(s@) {
                Ok(a) => r == Ok::<PlayerAge, String>(a),
                Err(m) => r matches Err(e) && e@ == m,
            },
    {
        proof {
            reveal_strlit(" and up");
        }
        match strip_suffix_text(s.as_str(), " and up") {
            Some(age) => match parse_unsigned(age.as_str(), u64::MAX) {
                Ok(n) => Ok(PlayerAge::AgeOrAbove(n)),
                Err(e) => {
                    let m = e.message();
                    Err(concat("unable to parse player age to u64: ", m.as_str()))
                },
            },
            None => match parse_unsigned(s.as_str(), u64::MAX) {
                Ok(n) => Ok(PlayerAge::Age(n)),
                Err(e) => {
                    let m = e.message();
                    Err(concat("unable to parse player count to u64: ", m.as_str()))
                },
            },
        }
    }
}

/// One option of a poll and how many voted for it.
#[derive(Clone, Debug)]
pub struct PollResult {
    /// The level of the option, given only in the language dependence poll.
    pub level: Option<u64>,
    /// The name of the option.
    pub value: String,
    /// How many users voted for it.
    pub number_of_votes: u64,
}

/// A set of results of a poll, for one player count in the player count poll.
#[derive(Clone, Debug)]
pub struct PollResults {
    /// The player count these results are for, given only in the player count poll.
    pub number_of_players: Option<PlayerCount>,
    /// The results, one per option.
    pub results: Vec<PollResult>,
}

/// A poll as the API gives it, before it is read as one of the known polls.
#[derive(Clone, Debug)]
pub struct Poll {
    /// The fixed name of the poll.
    pub name: String,
    /// The title of the poll.
    pub title: String,
    /// How many users voted in the poll.
    pub total_voters: u64,
    /// The sets of results of the poll.
    pub results: Vec<PollResults>,
}

/// A suggested player count, with how many users voted it best, recommended, or not.
#[derive(Clone, Copy, Debug, PartialEq, Eq, Structural)]
pub struct SuggestedPlayerCount {
    /// The number of players this vote result is for.
    pub player_count: PlayerCount,
    /// How many users voted this player count as the best option.
    pub best_votes: u64,
    /// How many users voted this player count as recommended.
    pub recommended_votes: u64,
    /// How many users voted this player count as not recommended.
    pub not_recommended_votes: u64,
}

/// The votes for best, recommended and not recommended, each from the last option with that
/// name, or the message for the first option with any other name.
pub open spec fn vote_tally(rs: Seq<PollResult>) -> Result<(Option<u64>, Option<u64>, Option<u64>), Seq<char>>
    decreases rs.len(),
{
    if rs.len() == 0 {
        Ok((None, None, None))
    } else {
        match vote_tally(rs.drop_last()) {
            Err(m) => Err(m),
            Ok(t) => {
                let v = rs.last();
                if v.value@ == "Best"@ {
                    Ok((Some(v.number_of_votes), t.1, t.2))
                } else if v.value@ == "Recommended"@ {
                    Ok((t.0, Some(v.number_of_votes), t.2))
                } else if v.value@ == "Not Recommended"@ {
                    Ok((t.0, t.1, Some(v.number_of_votes)))
                } else {
                    Err("unexpected player count vote option: "@ + v.value@)
                }
            },
        }
    }
}

/// The suggested player count that a set of results of the player count poll gives, or the
/// message for what is wrong with it.
pub open spec fn suggested_player_count_spec(r: PollResults) -> Result<SuggestedPlayerCount, Seq<char>> {
    match vote_tally(r.results@) {
        Err(m) => Err(m),
        Ok(t) => if r.number_of_players is None {
            Err("player count was `None` when `Some` was expected"@)
        } else if t.0 is None {
            Err("value `Best` missing for player count vote"@)
        } else if t.1 is None {
            Err("value `Recommended` missing for player count vote"@)
        } else if t.2 is None {
            Err("value `Not Recommended` missing for player count vote"@)
        } else {
            Ok(
                SuggestedPlayerCount {
                    player_count: r.number_of_players.unwrap(),
                    best_votes: t.0.unwrap(),
                    recommended_votes: t.1.unwrap(),
                    not_recommended_votes: t.2.unwrap(),
                },
            )
        },
    }
}

/// A prefix of options that fails to tally makes the whole fail with the same message.
pub proof fn lemma_tally_prefix_err(rs: Seq<PollResult>, k: int)
    requires
        0 <= k <= rs.len(),
        vote_tally(rs.take(k)) is Err,
    ensures
        vote_tally(rs) == vote_tally(rs.take(k)),
    decreases rs.len() - k,
{
    if k == rs.len() {
        assert(rs.take(k) =~= rs);
    } else {
        assert(rs.take(k + 1).drop_last() =~= rs.take(k));
        lemma_tally_prefix_err(rs, k + 1);
    }
}

impl SuggestedPlayerCount {
    /// Reads one set of results of the player count poll.
    pub fn try_from(results: PollResults) -> (r: Result<SuggestedPlayerCount, String>)
        ensures
            match suggested_player_count_spec(results) {
                Ok(c) => r == Ok::<SuggestedPlayerCount, String>(c),
                Err(m) => r matches Err(e) && e@ == m,
            },
    {
        Self::from_results(&results)
    }

    /// Reads one set of results of the player count poll, borrowed.
    fn from_results(results: &PollResults) -> (r: Result<SuggestedPlayerCount, String>)
        ensures
            match suggested_player_count_spec(*results) {
                Ok(c) => r == Ok::<SuggestedPlayerCount, String>(c),
                Err(m) => r matches Err(e) && e@ == m,
            },
    {
        let mut best: Option<u64> = None;
        let mut recommended: Option<u64> = None;
        let mut not_recommended: Option<u64> = None;
        let mut i: usize = 0;
        while i < results.results.len()
            invariant
                i <= results.results.len(),
                vote_tally(results.results@.take(i as int)) == Ok::<
                    (Option<u64>, Option<u64>, Option<u64>),
                    Seq<char>,
                >((best, recommended, not_recommended)),
            decreases results.results.len() - i,
        {
            let v = &results.results[i];
            assert(results.results@.take(i + 1).drop_last() =~= results.results@.take(i as int));
            assert(results.results@.take(i + 1).last() == results.results@[i as int]);
            if same_text(v.value.as_str(), "Best") {
                best = Some(v.number_of_votes);
            } else if same_text(v.value.as_str(), "Recommended") {
                recommended = Some(v.number_of_votes);
            } else if same_text(v.value.as_str(), "Not Recommended") {
                not_recommended = Some(v.number_of_votes);
            } else {
                proof {
                    lemma_tally_prefix_err(results.results@, i + 1);
                }
                return Err(concat("unexpected player count vote option: ", v.value.as_str()));
            }
            i = i + 1;
        }
        assert(results.results@.take(i as int) =~= results.results@);
        let player_count = match results.number_of_players {
            Some(p) => p,
            None => {
                return Err(owned("player count was `None` when `Some` was expected"));
            },
        };
        let best_votes = match best {
            Some(n) => n,
            None => {
                return Err(owned("value `Best` missing for player count vote"));
            },
        };
        let recommended_votes = match recommended {
            Some(n) => n,
            None => {
                return Err(owned("value `Recommended` missing for player count vote"));
            },
        };
        let not_recommended_votes = match not_recommended {
            Some(n) => n,
            None => {
                return Err(owned("value `Not Recommended` missing for player count vote"));
            },
        };
        Ok(SuggestedPlayerCount { player_count, best_votes, recommended_votes, not_recommended_votes })
    }
}

/// The poll on the best number of players for a game.
#[derive(Clone, Debug)]
pub struct SuggestedPlayerCountPoll {
    /// The title of the poll.
    pub title: String,
    /// How many users voted in the poll.
    pub total_voters: u64,
    /// One result per player count option, the last usually for the largest count and above.
    pub results: Vec<SuggestedPlayerCount>,
}

/// The suggested player counts of all sets of results, or the message for the first set that
/// is wrong.
pub open spec fn player_count_results_spec(rs: Seq<PollResults>) -> Result<Seq<SuggestedPlayerCount>, Seq<char>>
    decreases rs.len(),
{
    if rs.len() == 0 {
        Ok(seq![])
    } else {
        match player_count_results_spec(rs.drop_last()) {
            Err(m) => Err(m),
            Ok(done) => match suggested_player_count_spec(rs.last()) {
                Err(m) => Err(m),
                Ok(c) => Ok(done.push(c)),
            },
        }
    }
}

/// A prefix of sets of results that fails makes the whole fail with the same message.
pub proof fn lemma_player_count_prefix_err(rs: Seq<PollResults>, k: int)
    requires
        0 <= k <= rs.len(),
        player_count_results_spec(rs.take(k)) is Err,
    ensures
        player_count_results_spec(rs) == player_count_results_spec(rs.take(k)),
    decreases rs.len() - k,
{
    if k == rs.len() {
        assert(rs.take(k) =~= rs);
    } else {
        assert(rs.take(k + 1).drop_last() =~= rs.take(k));
        lemma_player_count_prefix_err(rs, k + 1);
    }
}

/// The message for what is wrong with a poll read as the player count poll, if anything.
pub open spec fn player_count_poll_error(poll: Poll) -> Option<Seq<char>> {
    match player_count_results_spec(poll.results@) {
        Ok(_) => None,
        Err(m) => Some(m),
    }
}

/// Whether a player count poll is the one that a poll gives.
pub open spec fn player_count_poll_of(poll: Poll, p: SuggestedPlayerCountPoll) -> bool {
    &&& player_count_results_spec(poll.results@) matches Ok(cs) && p.results@ == cs
    &&& p.title == poll.title
    &&& p.total_voters == poll.total_voters
}

impl SuggestedPlayerCountPoll {
    /// Reads the player count poll.
    pub fn try_from(poll: Poll) -> (r: Result<SuggestedPlayerCountPoll, String>)
        ensures
            match player_count_poll_error(poll) {
                None => r matches Ok(p) && player_count_poll_of(poll, p),
                Some(m) => r matches Err(e) && e@ == m,
            },
    {
        let mut out: Vec<SuggestedPlayerCount> = Vec::new();
        let mut i: usize = 0;
        while i < poll.results.len()
            invariant
                i <= poll.results.len(),
                player_count_results_spec(poll.results@.take(i as int)) == Ok::<
                    Seq<SuggestedPlayerCount>,
                    Seq<char>,
                >(out@),
            decreases poll.results.len() - i,
        {
            assert(poll.results@.take(i + 1).drop_last() =~= poll.results@.take(i as int));
            assert(poll.results@.take(i + 1).last() == poll.results@[i as int]);
            match SuggestedPlayerCount::from_results(&poll.results[i]) {
                Ok(c) => {
                    out.push(c);
                },
                Err(e) => {
                    proof {
                        lemma_player_count_prefix_err(poll.results@, i + 1);
                    }
                    return Err(e);
                },
            }
            i = i + 1;
        }
        assert(poll.results@.take(i as int) =~= poll.results@);
        Ok(SuggestedPlayerCountPoll { title: poll.title, total_voters: poll.total_voters, results: out })
    }
}

/// A suggested youngest age, with how many users voted for it.
#[derive(Clone, Copy, Debug, PartialEq, Eq, Structural)]
pub struct SuggestedPlayerAge {
    /// The age this vote result is for.
    pub player_age: PlayerAge,
    /// How many users voted this age as the youngest suitable one.
    pub votes: u64,
}

/// The poll on the youngest suitable age for playing a game.
#[derive(Clone, Debug)]
pub struct SuggestedPlayerAgePoll {
    /// The title of the poll.
    pub title: String,
    /// How many users voted in the poll.
    pub total_voters: u64,
    /// One result per age option.
    pub results: Vec<SuggestedPlayerAge>,
}

/// The message for a poll that does not have exactly one set of results.
pub open spec fn result_sets_message(n: nat) -> Seq<char> {
    "expected 1 set of results but got "@ + decimal(n)
}

/// The suggested ages of all options, or the message for the first that does not parse.
pub open spec fn age_results_spec(rs: Seq<PollResult>) -> Result<Seq<SuggestedPlayerAge>, Seq<char>>
    decreases rs.len(),
{
    if rs.len() == 0 {
        Ok(seq![])
    } else {
        match age_results_spec(rs.drop_last()) {
            Err(m) => Err(m),
            Ok(done) => match player_age_spec(rs.last().value@) {
                Err(m) => Err(m),
                Ok(a) => Ok(done.push(SuggestedPlayerAge { player_age: a, votes: rs.last().number_of_votes })),
            },
        }
    }
}

/// A prefix of age options that fails makes the whole fail with the same message.
pub proof fn lemma_age_prefix_err(rs: Seq<PollResult>, k: int)
    requires
        0 <= k <= rs.len(),
        age_results_spec(rs.take(k)) is Err,
    ensures
        age_results_spec(rs) == age_results_spec(rs.take(k)),
    decreases rs.len() - k,
{
    if k == rs.len() {
        assert(rs.take(k) =~= rs);
    } else {
        assert(rs.take(k + 1).drop_last() =~= rs.take(k));
        lemma_age_prefix_err(rs, k + 1);
    }
}

/// The message for a poll with this many sets of results, which must be one.
fn result_sets_error(n: usize) -> (s: String)
    ensures
        s@ == result_sets_message(n as nat),
{
    let mut s = owned("expected 1 set of results but got ");
    write_decimal(&mut s, n as u64);
    s
}

/// The message for what is wrong with a poll read as the player age poll, if anything: it
/// must have exactly one set of results, each option an age.
pub open spec fn player_age_poll_error(poll: Poll) -> Option<Seq<char>> {
    if poll.results.len() != 1 {
        Some(result_sets_message(poll.results.len() as nat))
    } else {
        match age_results_spec(poll.results@[0].results@) {
            Ok(_) => None,
            Err(m) => Some(m),
        }
    }
}

/// Whether a player age poll is the one that a poll gives.
pub open spec fn player_age_poll_of(poll: Poll, p: SuggestedPlayerAgePoll) -> bool {
    &&& poll.results.len() == 1
    &&& age_results_spec(poll.results@[0].results@) matches Ok(ages) && p.results@ == ages
    &&& p.title == poll.title
    &&& p.total_voters == poll.total_voters
}

impl SuggestedPlayerAgePoll {
    /// Reads the player age poll, which has exactly one set of results.
    pub fn try_from(poll: Poll) -> (r: Result<SuggestedPlayerAgePoll, String>)
        ensures
            match player_age_poll_error(poll) {
                None => r matches Ok(p) && player_age_poll_of(poll, p),
                Some(m) => r matches Err(e) && e@ == m,
            },
    {
        if poll.results.len() != 1 {
            return Err(result_sets_error(poll.results.len()));
        }
        let rs = &poll.results[0].results;
        let mut out: Vec<SuggestedPlayerAge> = Vec::new();
        let mut i: usize = 0;
        while i < rs.len()
            invariant
                i <= rs.len(),
                poll.results.len() == 1,
                rs@ == poll.results@[0].results@,
                age_results_spec(rs@.take(i as int)) == Ok::<Seq<SuggestedPlayerAge>, Seq<char>>(out@),
            decreases rs.len() - i,
        {
            assert(rs@.take(i + 1).drop_last() =~= rs@.take(i as int));
            assert(rs@.take(i + 1).last() == rs@[i as int]);
            match PlayerAge::try_from(rs[i].value.clone()) {
                Ok(age) => {
                    out.push(SuggestedPlayerAge { player_age: age, votes: rs[i].number_of_votes });
                },
                Err(e) => {
                    proof {
                        lemma_age_prefix_err(rs@, i + 1);
                    }
                    return Err(e);
                },
            }
            i = i + 1;
        }
        assert(rs@.take(i as int) =~= rs@);
        Ok(SuggestedPlayerAgePoll { title: poll.title, total_voters: poll.total_voters, results: out })
    }
}

/// How much a game depends on its language, with how many users voted for that level.
#[derive(Clone, Debug)]
pub struct LanguageDependence {
    /// The level, higher for a game that depends more on its language.
    pub level: u64,
    /// The description of the level.
    pub dependence: String,
    /// How many users voted for this level.
    pub votes: u64,
}

/// The poll on how much a game depends on its language.
#[derive(Clone, Debug)]
pub struct LanguageDependencePoll {
    /// The title of the poll.
    pub title: String,
    /// How many users voted in the poll.
    pub total_voters: u64,
    /// One result per level, from no text needed to unplayable in another language.
    pub results: Vec<LanguageDependence>,
}

/// Whether the results of the language poll are the options read in order.
pub open spec fn language_results_match(out: Seq<LanguageDependence>, rs: Seq<PollResult>) -> bool {
    &&& out.len() == rs.len()
    &&& forall|i: int| 0 <= i < rs.len() ==> {
        &&& rs[i].level == Some(#[trigger] out[i].level)
        &&& out[i].dependence == rs[i].value
        &&& out[i].votes == rs[i].number_of_votes
    }
}

/// The message for what is wrong with a poll read as the language dependence poll, if
/// anything: it must have exactly one set of results, each option with a level.
pub open spec fn language_poll_error(poll: Poll) -> Option<Seq<char>> {
    if poll.results.len() != 1 {
        Some(result_sets_message(poll.results.len() as nat))
    } else if forall|i: int|
        0 <= i < poll.results@[0].results@.len() ==> (#[trigger] poll.results@[0].results@[i]).level is Some {
        None
    } else {
        Some("missing language dependence level"@)
    }
}

/// Whether a language dependence poll is the one that a poll gives.
pub open spec fn language_poll_of(poll: Poll, p: LanguageDependencePoll) -> bool {
    &&& poll.results.len() == 1
    &&& language_results_match(p.results@, poll.results@[0].results@)
    &&& p.title == poll.title
    &&& p.total_voters == poll.total_voters
}

impl LanguageDependencePoll {
    /// Reads the language dependence poll, which has exactly one set of results, each with a
    /// level.
    pub fn try_from(poll: Poll) -> (r: Result<LanguageDependencePoll, String>)
        ensures
            match language_poll_error(poll) {
                None => r matches Ok(p) && language_poll_of(poll, p),
                Some(m) => r matches Err(e) && e@ == m,
            },
    {
        if poll.results.len() != 1 {
            return Err(result_sets_error(poll.results.len()));
        }
        let rs = &poll.results[0].results;
        let mut out: Vec<LanguageDependence> = Vec::new();
        let mut i: usize = 0;
        while i < rs.len()
            invariant
                i <= rs.len(),
                poll.results.len() == 1,
                rs@ == poll.results@[0].results@,
                language_results_match(out@, rs@.take(i as int)),
                forall|j: int| 0 <= j < i ==> (#[trigger] rs@[j]).level is Some,
            decreases rs.len() - i,
        {
            let level = match rs[i].level {
                Some(l) => l,
                None => {
                    assert(rs@[i as int].level is None);
                    return Err(owned("missing language dependence level"));
                },
            };
            out.push(LanguageDependence { level, dependence: rs[i].value.clone(), votes: rs[i].number_of_votes });
            i = i + 1;
        }
        assert(rs@.take(i as int) =~= rs@);
        Ok(LanguageDependencePoll { title: poll.title, total_voters: poll.total_voters, results: out })
    }
}

/// Dropping a character that a text does not hold leaves the text as it was.
proof fn lemma_without_absent_char(s: Seq<char>, c: char)
    requires
        forall|i: int| 0 <= i < s.len() ==> s[i] != c,
    ensures
        without_char(s, c) == s,
    decreases s.len(),
{
    if s.len() > 0 {
        assert(s.last() == s[s.len() - 1]);
        lemma_without_absent_char(s.drop_last(), c);
        assert(s.drop_last().push(s.last()) =~= s);
    }
}

/// Law: a player count field holding a number is that many players, and one holding a number
/// followed by `+` is that many players or more.
pub proof fn law_player_count_text(n: u64)
    ensures
        player_count_spec(decimal(n as nat)) == Ok::<PlayerCount, FieldErrorView>(PlayerCount::Players(n)),
        player_count_spec(decimal(n as nat).push('+')) == Ok::<PlayerCount, FieldErrorView>(
            PlayerCount::PlayersOrAbove(n),
        ),
{
    let d = decimal(n as nat);
    lemma_decimal_digits(n as nat);
    law_decimal_parse_round_trip(n as nat, u64::MAX as nat);
    assert(is_digit(d[d.len() - 1]));
    assert(d.last() != '+');
    assert forall|i: int| 0 <= i < d.len() implies d[i] != '+' by {
        assert(is_digit(d[i]));
    }
    lemma_without_absent_char(d, '+');
    let e = d.push('+');
    assert(e.drop_last() =~= d);
    assert(e.last() == '+');
    assert(without_char(e, '+') == without_char(d, '+'));
}

/// Law: a player age option holding a number is that age, and one holding a number followed
/// by ` and up` is that age or above.
pub proof fn law_player_age_text(n: u64)
    ensures
        player_age_spec(decimal(n as nat)) == Ok::<PlayerAge, Seq<char>>(PlayerAge::Age(n)),
        player_age_spec(decimal(n as nat) + " and up"@) == Ok::<PlayerAge, Seq<char>>(
            PlayerAge::AgeOrAbove(n),
        ),
{
    reveal_strlit(" and up");
    let d = decimal(n as nat);
    lemma_decimal_digits(n as nat);
    law_decimal_parse_round_trip(n as nat, u64::MAX as nat);
    if ends_with(d, " and up"@) {
        assert(d.subrange(d.len() - 7, d.len() as int)[6] == d[d.len() - 1]);
        assert(is_digit(d[d.len() - 1]));
        assert(" and up"@[6] == 'p');
    }
    let e = d + " and up"@;
    assert(e.subrange(e.len() - 7, e.len() as int) =~= " and up"@);
    assert(e.subrange(0, e.len() - 7) =~= d);
}

/// Law: the results for a player count whose options are `Best`, `Recommended` and
/// `Not Recommended`, in the order the API gives them, give that player count with the best
/// votes from the first, the recommended votes from the second and the not recommended votes
/// from the third.
pub proof fn law_player_count_votes(r: PollResults, count: PlayerCount, best: u64, recommended: u64, not_recommended: u64)
    requires
        r.number_of_players == Some(count),
        r.results@.len() == 3,
        r.results@[0].value@ == "Best"@,
        r.results@[0].number_of_votes == best,
        r.results@[1].value@ == "Recommended"@,
        r.results@[1].number_of_votes == recommended,
        r.results@[2].value@ == "Not Recommended"@,
        r.results@[2].number_of_votes == not_recommended,
    ensures
        suggested_player_count_spec(r) == Ok::<SuggestedPlayerCount, Seq<char>>(
            (SuggestedPlayerCount {
                player_count: count,
                best_votes: best,
                recommended_votes: recommended,
                not_recommended_votes: not_recommended,
            }),
        ),
{
    reveal_strlit("Best");
    reveal_strlit("Recommended");
    reveal_strlit("Not Recommended");
    let rs = r.results@;
    let r1 = rs.drop_last().drop_last();
    let r2 = rs.drop_last();
    assert(r1.drop_last() =~= Seq::<PollResult>::empty());
    assert(r1.last() == rs[0] && r2.last() == rs[1] && rs.last() == rs[2]);
    assert("Best"@.len() == 4 && "Recommended"@.len() == 11 && "Not Recommended"@.len() == 15);
    assert("Recommended"@ != "Best"@);
    assert("Not Recommended"@ != "Best"@ && "Not Recommended"@ != "Recommended"@);
    assert(vote_tally(r1.drop_last()) == Ok::<(Option<u64>, Option<u64>, Option<u64>), Seq<char>>((None, None, None)));
    assert(vote_tally(r1) == Ok::<(Option<u64>, Option<u64>, Option<u64>), Seq<char>>((Some(best), None, None)));
    assert(vote_tally(r2) == Ok::<(Option<u64>, Option<u64>, Option<u64>), Seq<char>>((Some(best), Some(recommended), None)));
    assert(vote_tally(rs) == Ok::<(Option<u64>, Option<u64>, Option<u64>), Seq<char>>((Some(best), Some(recommended), Some(not_recommended))));
}

} // verus!
