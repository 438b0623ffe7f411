use vstd::prelude::*;

use crate::addresses::strs;
use crate::content::ContentFormat;
use crate::text::str_equal;

verus! {

/// An answer of a poll.
#[derive(Debug)]
pub struct PollAnswer {
    pub id: String,
    pub text: String,
}

/// The users who voted for an answer.
#[derive(Debug)]
pub struct PollVotes {
    pub answer_id: String,
    pub voters: Vec<String>,
}

/// The state of a poll: its answers, the votes by answer ID, how many
/// answers a user may choose, whether it ended and whether its results show
/// before it ends.
#[derive(Debug)]
pub struct PollResults {
    pub answers: Vec<PollAnswer>,
    pub votes: Vec<PollVotes>,
    pub max_selections: u64,
    pub ended: bool,
    pub disclosed: bool,
}

/// The voters for an answer, if it has an entry among the votes.
pub open spec fn votes_for(votes: Seq<PollVotes>, id: Seq<char>) -> Option<Seq<Seq<char>>>
    decreases votes.len(),
{
    if votes.len() == 0 {
        None
    } else if votes[0].answer_id@ == id {
        Some(strs(votes[0].voters@))
    } else {
        votes_for(votes.drop_first(), id)
    }
}

/// The number of votes for an answer.
pub open spec fn vote_count(votes: Seq<PollVotes>, id: Seq<char>) -> int {
    match votes_for(votes, id) {
        Some(v) => v.len() as int,
        None => 0,
    }
}

/// Whether a user voted for an answer.
pub open spec fn voted_for(votes: Seq<PollVotes>, id: Seq<char>, user: Seq<char>) -> bool {
    match votes_for(votes, id) {
        Some(v) => v.contains(user),
        None => false,
    }
}

/// The number of votes cast, over all the entries of the votes.
pub open spec fn total_votes(votes: Seq<PollVotes>) -> int
    decreases votes.len(),
{
    if votes.len() == 0 {
        0
    } else {
        votes.last().voters@.len() + total_votes(votes.drop_last())
    }
}

/// The highest number of votes that an answer got, 0 without answers.
pub open spec fn max_votes(answers: Seq<PollAnswer>, votes: Seq<PollVotes>) -> int
    decreases answers.len(),
{
    if answers.len() == 0 {
        0
    } else {
        let rest = max_votes(answers.drop_last(), votes);
        let c = vote_count(votes, answers.last().id@);
        if c > rest {
            c
        } else {
            rest
        }
    }
}

proof fn lemma_votes_for_index(votes: Seq<PollVotes>, id: Seq<char>, i: int)
    requires
        0 <= i < votes.len(),
        votes[i].answer_id@ == id,
        forall|j: int| 0 <= j < i ==> votes[j].answer_id@ != id,
    ensures
        votes_for(votes, id) == Some(strs(votes[i].voters@)),
    decreases i,
{
    if i > 0 {
        lemma_votes_for_index(votes.drop_first(), id, i - 1);
    }
}

proof fn lemma_votes_for_none(votes: Seq<PollVotes>, id: Seq<char>)
    requires
        forall|j: int| 0 <= j < votes.len() ==> votes[j].answer_id@ != id,
    ensures
        votes_for(votes, id) is None,
    decreases votes.len(),
{
    if votes.len() > 0 {
        lemma_votes_for_none(votes.drop_first(), id);
    }
}

proof fn lemma_max_votes_bounds(answers: Seq<PollAnswer>, votes: Seq<PollVotes>)
    ensures
        forall|k: int| 0 <= k < answers.len() ==> #[trigger] vote_count(votes, answers[k].id@) <= max_votes(
            answers,
            votes,
        ),
        answers.len() > 0 ==> exists|k: int| 0 <= k < answers.len() && #[trigger] vote_count(votes, answers[k].id@)
            == max_votes(answers, votes),
        answers.len() == 0 ==> max_votes(answers, votes) == 0,
        max_votes(answers, votes) >= 0,
    decreases answers.len(),
{
    if answers.len() > 0 {
        let p = answers.drop_last();
        lemma_max_votes_bounds(p, votes);
        assert forall|k: int| 0 <= k < answers.len() implies #[trigger] vote_count(votes, answers[k].id@)
            <= max_votes(answers, votes) by {
            if k < answers.len() - 1 {
                assert(answers[k] == p[k]);
            }
        }
        let last = answers.len() - 1;
        if vote_count(votes, answers[last].id@) > max_votes(p, votes) || p.len() == 0 {
            assert(vote_count(votes, answers[last].id@) == max_votes(answers, votes));
        } else {
            let k = choose|k: int| 0 <= k < p.len() && #[trigger] vote_count(votes, p[k].id@) == max_votes(p, votes);
            assert(answers[k] == p[k]);
            assert(vote_count(votes, answers[k].id@) == max_votes(answers, votes));
        }
    }
}

/// The entry of the votes for an answer, if any.
fn find_votes(votes: &Vec<PollVotes>, id: &str) -> (res: Option<usize>)
    ensures
        match res {
            Some(i) => i < votes@.len() && votes_for(votes@, id@) == Some(strs(votes@[i as int].voters@)),
            None => votes_for(votes@, id@) is None,
        },
{
    let n = votes.len();
    let mut i: usize = 0;
    while i < n
        invariant
            n == votes@.len(),
            0 <= i <= n,
            forall|j: int| 0 <= j < i ==> votes@[j].answer_id@ != id@,
        decreases n - i,
    {
        if str_equal(votes[i].answer_id.as_str(), id) {
            proof {
                lemma_votes_for_index(votes@, id@, i as int);
            }
            return Some(i);
        }
        i = i + 1;
    }
    proof {
        lemma_votes_for_none(votes@, id@);
    }
    None
}

/// The number of votes for an answer.
pub fn count_votes(votes: &Vec<PollVotes>, id: &str) -> (res: usize)
    ensures
        res == vote_count(votes@, id@),
{
    match find_votes(votes, id) {
        Some(i) => votes[i].voters.len(),
        None => 0,
    }
}

/// Whether a user voted for an answer.
pub fn has_voted_for(votes: &Vec<PollVotes>, id: &str, user: &str) -> (res: bool)
    ensures
        res == voted_for(votes@, id@, user@),
{
    match find_votes(votes, id) {
        Some(i) => {
            let voters = &votes[i].voters;
            let n = voters.len();
            let mut k: usize = 0;
            while k < n
                invariant
                    n == voters@.len(),
                    0 <= k <= n,
                    votes_for(votes@, id@) == Some(strs(voters@)),
                    forall|j: int| 0 <= j < k ==> voters@[j]@ != user@,
                decreases n - k,
            {
                if str_equal(voters[k].as_str(), user) {
                    proof {
                        assert(strs(voters@)[k as int] == user@);
                    }
                    return true;
                }
                k = k + 1;
            }
            proof {
                if strs(voters@).contains(user@) {
                    let j = choose|j: int| 0 <= j < strs(voters@).len() && strs(voters@)[j] == user@;
                    assert(voters@[j]@ == user@);
                }
            }
            false
        },
        None => false,
    }
}

/// The number of votes cast.
pub fn count_total_votes(votes: &Vec<PollVotes>) -> (res: usize)
    requires
        total_votes(votes@) <= usize::MAX,
    ensures
        res == total_votes(votes@),
{
    let n = votes.len();
    let mut total: usize = 0;
    let mut i: usize = 0;
    while i < n
        invariant
            n == votes@.len(),
            0 <= i <= n,
            total_votes(votes@) <= usize::MAX,
            total == total_votes(votes@.take(i as int)),
        decreases n - i,
    {
        proof {
            assert(votes@.take(i as int + 1).drop_last() =~= votes@.take(i as int));
            lemma_total_votes_prefix(votes@, i as int + 1);
        }
        total = total + votes[i].voters.len();
        i = i + 1;
    }
    proof {
        assert(votes@.take(n as int) =~= votes@);
    }
    total
}

proof fn lemma_total_votes_prefix(votes: Seq<PollVotes>, i: int)
    requires
        0 <= i <= votes.len(),
    ensures
        total_votes(votes.take(i)) <= total_votes(votes),
    decreases votes.len() - i,
{
    if i < votes.len() {
        lemma_total_votes_prefix(votes, i + 1);
        assert(votes.take(i + 1).drop_last() =~= votes.take(i));
    } else {
        assert(votes.take(i) =~= votes);
    }
}

/// The highest number of votes that an answer got.
pub fn count_max_votes(answers: &Vec<PollAnswer>, votes: &Vec<PollVotes>) -> (res: usize)
    ensures
        res == max_votes(answers@, votes@),
{
    let n = answers.len();
    let mut max: usize = 0;
    let mut i: usize = 0;
    while i < n
        invariant
            n == answers@.len(),
            0 <= i <= n,
            max == max_votes(answers@.take(i as int), votes@),
        decreases n - i,
    {
        let c = count_votes(votes, answers[i].id.as_str());
        proof {
            assert(answers@.take(i as int + 1).drop_last() =~= answers@.take(i as int));
            assert(answers@.take(i as int + 1).last() == answers@[i as int]);
        }
        if c > max {
            max = c;
        }
        i = i + 1;
    }
    proof {
        assert(answers@.take(n as int) =~= answers@);
    }
    max
}

/// An answer as the poll shows it.
#[derive(Clone, Copy, Debug, PartialEq, Eq, Structural)]
pub struct AnswerRow {
    /// The number of votes for the answer.
    pub count: usize,
    /// Whether the own user voted for it.
    pub is_selected: bool,
    /// Whether it won: the poll ended and no answer got more votes.
    pub is_winner: bool,
}

/// The line below the answers.
#[derive(Clone, Copy, Debug, PartialEq, Eq, Structural)]
pub enum PollFooter {
    /// The final result, from this many votes.
    FinalResult(usize),
    /// This many votes were cast.
    VotesCast(usize),
    /// The results show once the own user voted.
    VoteToSeeResults,
    /// The results show once the poll ends.
    RevealedWhenEnded,
}

/// How a poll shows.
#[derive(Debug)]
pub struct PollView {
    /// Whether only the question shows.
    pub compact: bool,
    /// Whether the counts of votes show.
    pub show_results: bool,
    /// Whether the own user can vote.
    pub can_vote: bool,
    /// Whether the answers are radio buttons (a single choice).
    pub single_choice: bool,
    /// The answers, in order.
    pub rows: Vec<AnswerRow>,
    pub footer: PollFooter,
}

/// Whether the own user voted for some answer.
pub open spec fn has_voted(answers: Seq<PollAnswer>, votes: Seq<PollVotes>, user: Seq<char>) -> bool {
    exists|k: int| 0 <= k < answers.len() && #[trigger] voted_for(votes, answers[k].id@, user)
}

/// The row of an answer.
pub open spec fn spec_answer_row(r: PollResults, k: int, user: Seq<char>) -> AnswerRow {
    let c = vote_count(r.votes@, r.answers@[k].id@);
    AnswerRow {
        count: c as usize,
        is_selected: voted_for(r.votes@, r.answers@[k].id@, user),
        is_winner: r.ended && c > 0 && c == max_votes(r.answers@, r.votes@),
    }
}

/// Whether the counts of votes show: once the poll ended, or, for a poll
/// whose results are disclosed, once the own user voted.
pub open spec fn spec_show_results(r: PollResults, user: Seq<char>) -> bool {
    r.ended || (r.disclosed && has_voted(r.answers@, r.votes@, user))
}

/// The footer of a poll.
pub open spec fn spec_footer(r: PollResults, user: Seq<char>) -> PollFooter {
    let n = total_votes(r.votes@) as usize;
    if r.ended {
        PollFooter::FinalResult(n)
    } else if spec_show_results(r, user) {
        PollFooter::VotesCast(n)
    } else if r.disclosed {
        PollFooter::VoteToSeeResults
    } else {
        PollFooter::RevealedWhenEnded
    }
}

/// How a poll shows for the own user: in a compact format only the question
/// shows; otherwise each answer with its votes, whether the own user voted
/// for it and whether it won, the counts when the results show, the
/// controls to vote when the poll is open, was sent and the own user can
/// send messages, and the footer.
pub fn set_poll(
    r: &PollResults,
    own_user_id: &str,
    has_event_id: bool,
    can_send_message: bool,
    format: ContentFormat,
) -> (res: PollView)
    requires
        total_votes(r.votes@) <= usize::MAX,
    ensures
        res.compact == !(format is Natural),
        res.compact ==> res.rows@.len() == 0,
        !res.compact ==> {
            &&& res.show_results == spec_show_results(*r, own_user_id@)
            &&& res.can_vote == (!r.ended && has_event_id && can_send_message)
            &&& res.single_choice == (r.max_selections <= 1)
            &&& res.rows@.len() == r.answers@.len()
            &&& forall|k: int| 0 <= k < r.answers@.len() ==> #[trigger] res.rows@[k] == spec_answer_row(
                *r,
                k,
                own_user_id@,
            )
            &&& res.footer == spec_footer(*r, own_user_id@)
        },
{
    let compact = format != ContentFormat::Natural;
    if compact {
        return PollView {
            compact: true,
            show_results: false,
            can_vote: false,
            single_choice: r.max_selections <= 1,
            rows: Vec::new(),
            footer: PollFooter::RevealedWhenEnded,
        };
    }
    let total = count_total_votes(&r.votes);
    let max = count_max_votes(&r.answers, &r.votes);
    let mut rows: Vec<AnswerRow> = Vec::new();
    let mut voted = false;
    let n = r.answers.len();
    let mut i: usize = 0;
    while i < n
        invariant
            n == r.answers@.len(),
            0 <= i <= n,
            max == max_votes(r.answers@, r.votes@),
            rows@.len() == i,
            forall|k: int| 0 <= k < i ==> #[trigger] rows@[k] == spec_answer_row(*r, k, own_user_id@),
            voted == (exists|k: int| 0 <= k < i && #[trigger] voted_for(r.votes@, r.answers@[k].id@, own_user_id@)),
        decreases n - i,
    {
        let id = r.answers[i].id.as_str();
        let count = count_votes(&r.votes, id);
        let is_selected = has_voted_for(&r.votes, id, own_user_id);
        let row = AnswerRow { count, is_selected, is_winner: r.ended && count > 0 && count == max };
        rows.push(row);
        proof {
            assert(rows@[i as int] == spec_answer_row(*r, i as int, own_user_id@));
            if is_selected {
                assert(voted_for(r.votes@, r.answers@[i as int].id@, own_user_id@));
            }
        }
        voted = voted || is_selected;
        i = i + 1;
    }
    let show_results = r.ended || (r.disclosed && voted);
    let footer = if r.ended {
        PollFooter::FinalResult(total)
    } else if show_results {
        PollFooter::VotesCast(total)
    } else if r.disclosed {
        PollFooter::VoteToSeeResults
    } else {
        PollFooter::RevealedWhenEnded
    };
    PollView {
        compact: false,
        show_results,
        can_vote: !r.ended && has_event_id && can_send_message,
        single_choice: r.max_selections <= 1,
        rows,
        footer,
    }
}

/// An ended poll in which someone voted for an answer has a winner, and no
/// answer got more votes than a winner.
pub proof fn law_ended_poll_has_winner(r: PollResults, user: Seq<char>)
    requires
        r.ended,
        exists|k: int| 0 <= k < r.answers@.len() && #[trigger] vote_count(r.votes@, r.answers@[k].id@) > 0,
    ensures
        exists|k: int| 0 <= k < r.answers@.len() && (#[trigger] spec_answer_row(r, k, user)).is_winner,
        forall|k: int, j: int|
            0 <= k < r.answers@.len() && 0 <= j < r.answers@.len() && (#[trigger] spec_answer_row(r, k, user)).is_winner
                ==> #[trigger] vote_count(r.votes@, r.answers@[j].id@) <= vote_count(r.votes@, r.answers@[k].id@),
{
    lemma_max_votes_bounds(r.answers@, r.votes@);
    let w = choose|k: int| 0 <= k < r.answers@.len() && #[trigger] vote_count(r.votes@, r.answers@[k].id@)
        == max_votes(r.answers@, r.votes@);
    let k0 = choose|k: int| 0 <= k < r.answers@.len() && #[trigger] vote_count(r.votes@, r.answers@[k].id@) > 0;
    assert(vote_count(r.votes@, r.answers@[k0].id@) <= max_votes(r.answers@, r.votes@));
    assert(spec_answer_row(r, w, user).is_winner);
    assert forall|k: int, j: int|
        0 <= k < r.answers@.len() && 0 <= j < r.answers@.len() && (#[trigger] spec_answer_row(r, k, user)).is_winner
            implies #[trigger] vote_count(r.votes@, r.answers@[j].id@) <= vote_count(r.votes@, r.answers@[k].id@) by {
        assert(vote_count(r.votes@, r.answers@[j].id@) <= max_votes(r.answers@, r.votes@));
    }
}

/// What toggling an answer does.
#[derive(Debug)]
pub enum AnswerToggle {
    /// Nothing: a radio button was deselected (the newly selected one votes).
    Nothing,
    /// Uncheck the answer again: it would select more answers than allowed.
    Revert,
    /// Vote for these answers.
    Send(Vec<String>),
}

/// What toggling an answer does. With a single choice, selecting an answer
/// votes for it alone. With several choices, `checked` holds the answers
/// that are checked now, in order: when they are more than allowed the
/// toggled answer is unchecked again, otherwise they are the vote.
pub fn answer_toggled(max_selections: u64, answer_id: &str, active: bool, checked: Vec<String>) -> (res:
    AnswerToggle)
    ensures
        max_selections <= 1 && !active ==> res is Nothing,
        max_selections <= 1 && active ==> (res matches AnswerToggle::Send(v) && v@.len() == 1 && v@[0]@
            == answer_id@),
        max_selections > 1 && checked@.len() > max_selections ==> res is Revert,
        max_selections > 1 && checked@.len() <= max_selections ==> (res matches AnswerToggle::Send(v)
            && v@ == checked@),
{
    if max_selections <= 1 {
        if !active {
            return AnswerToggle::Nothing;
        }
        let mut v: Vec<String> = Vec::new();
        v.push(answer_id.to_string());
        return AnswerToggle::Send(v);
    }
    let count = checked.len() as u64;
    if count > max_selections {
        return AnswerToggle::Revert;
    }
    AnswerToggle::Send(checked)
}

} // verus!
