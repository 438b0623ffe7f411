use vstd::prelude::*;
use vstd::string::StrSliceExecFns;

use ruma::events::poll::start::PollKind;
use ruma::events::poll::unstable_start::{
    NewUnstablePollStartEventContent, UnstablePollAnswer, UnstablePollAnswers, UnstablePollStartContentBlock,
};

use crate::addresses::strs;
use crate::text::{decimal, push_decimal, push_str, spec_trim, trim};

verus! {

/// The minimum number of answers of a poll.
pub const MIN_ANSWERS: usize = 2;

/// The maximum number of answers of a poll.
pub const MAX_ANSWERS: usize = 20;

/// The dialog to create a poll: the texts of its answer rows.
#[derive(Debug)]
pub struct CreatePollDialog {
    pub answers: Vec<String>,
}

/// A poll ready to be sent: its question, answers, the text that clients
/// without polls show instead, and whether its results show before it ends.
#[derive(Debug)]
pub struct PollDraft {
    pub question: String,
    pub answers: Vec<String>,
    pub fallback_text: String,
    pub disclosed: bool,
}

/// The answers that were entered: the texts of the rows without leading and
/// trailing whitespace, those left empty dropped.
pub open spec fn spec_answers(texts: Seq<String>) -> Seq<Seq<char>>
    decreases texts.len(),
{
    if texts.len() == 0 {
        Seq::empty()
    } else {
        let rest = spec_answers(texts.drop_last());
        let t = spec_trim(texts.last()@);
        if t.len() > 0 {
            rest.push(t)
        } else {
            rest
        }
    }
}

/// The text of a poll for clients without polls: the question, then a line
/// `n. answer` for each answer, numbered from 1.
pub open spec fn spec_fallback(question: Seq<char>, answers: Seq<Seq<char>>) -> Seq<char>
    decreases answers.len(),
{
    if answers.len() == 0 {
        question
    } else {
        spec_fallback(question, answers.drop_last()) + seq!['\n'] + decimal(answers.len()) + seq!['.', ' ']
            + answers.last()
    }
}

proof fn lemma_answers_len(texts: Seq<String>)
    ensures
        spec_answers(texts).len() <= texts.len(),
    decreases texts.len(),
{
    if texts.len() > 0 {
        lemma_answers_len(texts.drop_last());
    }
}

impl CreatePollDialog {
    /// Well-formedness: between the minimum and the maximum number of rows.
    pub open spec fn wf(&self) -> bool {
        MIN_ANSWERS <= self.answers@.len() <= MAX_ANSWERS
    }

    /// A dialog with the minimum number of empty rows.
    pub fn new() -> (res: Self)
        ensures
            res.wf(),
            res.answers@.len() == MIN_ANSWERS,
            forall|i: int| 0 <= i < res.answers@.len() ==> res.answers@[i]@.len() == 0,
    {
        let mut answers: Vec<String> = Vec::new();
        answers.push(String::new());
        answers.push(String::new());
        CreatePollDialog { answers }
    }

    /// Adds an empty row, unless there are as many as allowed.
    pub fn add_answer(&mut self)
        requires
            old(self).wf(),
        ensures
            final(self).wf(),
            old(self).answers@.len() < MAX_ANSWERS ==> final(self).answers@.len() == old(self).answers@.len() + 1
                && final(self).answers@.drop_last() == old(self).answers@ && final(self).answers@.last()@.len()
                == 0,
            old(self).answers@.len() >= MAX_ANSWERS ==> final(self).answers@ == old(self).answers@,
    {
        if self.answers.len() >= MAX_ANSWERS {
            return;
        }
        self.answers.push(String::new());
        proof {
            assert(self.answers@.drop_last() =~= old(self).answers@);
        }
    }

    /// Removes the row at the index, unless there are as few as required.
    pub fn remove_answer(&mut self, pos: usize)
        requires
            old(self).wf(),
        ensures
            final(self).wf(),
            old(self).answers@.len() > MIN_ANSWERS && pos < old(self).answers@.len() ==> final(self).answers@
                == old(self).answers@.remove(pos as int),
            !(old(self).answers@.len() > MIN_ANSWERS && pos < old(self).answers@.len()) ==> final(self).answers@
                == old(self).answers@,
    {
        if self.answers.len() <= MIN_ANSWERS || pos >= self.answers.len() {
            return;
        }
        let _ = self.answers.remove(pos);
    }

    /// Whether the rows can be removed: there are more than required.
    pub fn can_remove_answers(&self) -> (res: bool)
        ensures
            res == (self.answers@.len() > MIN_ANSWERS),
    {
        self.answers.len() > MIN_ANSWERS
    }

    /// Whether a row can be added: there are fewer than allowed.
    pub fn can_add_answer(&self) -> (res: bool)
        ensures
            res == (self.answers@.len() < MAX_ANSWERS),
    {
        self.answers.len() < MAX_ANSWERS
    }

    /// The answers that were entered.
    pub fn entered_answers(&self) -> (res: Vec<String>)
        ensures
            strs(res@) == spec_answers(self.answers@),
    {
        let mut res: Vec<String> = Vec::new();
        let n = self.answers.len();
        let mut i: usize = 0;
        while i < n
            invariant
                n == self.answers@.len(),
                0 <= i <= n,
                strs(res@) == spec_answers(self.answers@.take(i as int)),
            decreases n - i,
        {
            let ghost before = res@;
            let t = trim(self.answers[i].as_str());
            proof {
                assert(self.answers@.take(i as int + 1).drop_last() =~= self.answers@.take(i as int));
                assert(self.answers@.take(i as int + 1).last() == self.answers@[i as int]);
            }
            if t.as_str().unicode_len() > 0 {
                res.push(t);
                proof {
                    assert(strs(res@) =~= strs(before).push(spec_trim(self.answers@[i as int]@)));
                }
            }
            i = i + 1;
        }
        proof {
            assert(self.answers@.take(n as int) =~= self.answers@);
        }
        res
    }

    /// Whether the poll can be created: the question is not blank and at
    /// least the minimum number of answers were entered.
    pub fn validate(&self, question: &str) -> (res: bool)
        ensures
            res == (spec_trim(question@).len() > 0 && spec_answers(self.answers@).len() >= MIN_ANSWERS),
    {
        let q = trim(question);
        let answers = self.entered_answers();
        q.as_str().unicode_len() > 0 && answers.len() >= MIN_ANSWERS
    }

    /// Creates the poll, when it is valid: the trimmed question, the
    /// answers that were entered, the text for clients without polls, and
    /// whether the results show before the poll ends.
    pub fn create(&self, question: &str, disclosed: bool) -> (res: Option<PollDraft>)
        requires
            self.wf(),
        ensures
            res is Some <==> (spec_trim(question@).len() > 0 && spec_answers(self.answers@).len() >= MIN_ANSWERS),
            match res {
                Some(p) => {
                    &&& p.question@ == spec_trim(question@)
                    &&& strs(p.answers@) == spec_answers(self.answers@)
                    &&& p.fallback_text@ == spec_fallback(spec_trim(question@), spec_answers(self.answers@))
                    &&& p.disclosed == disclosed
                    &&& MIN_ANSWERS <= p.answers@.len() <= MAX_ANSWERS
                },
                None => true,
            },
    {
        let q = trim(question);
        let answers = self.entered_answers();
        if q.as_str().unicode_len() == 0 || answers.len() < MIN_ANSWERS {
            return None;
        }
        proof {
            lemma_answers_len(self.answers@);
        }
        let mut fallback = q.clone();
        let n = answers.len();
        let mut i: usize = 0;
        while i < n
            invariant
                n == answers@.len(),
                n <= MAX_ANSWERS,
                0 <= i <= n,
                fallback@ == spec_fallback(q@, strs(answers@).take(i as int)),
            decreases n - i,
        {
            let ghost before = fallback@;
            push_str(&mut fallback, "\n");
            push_decimal(&mut fallback, i + 1);
            push_str(&mut fallback, ". ");
            push_str(&mut fallback, answers[i].as_str());
            proof {
                reveal_strlit("\n");
                reveal_strlit(". ");
                assert("\n"@ =~= seq!['\n']);
                assert(". "@ =~= seq!['.', ' ']);
                let t = strs(answers@).take(i as int + 1);
                assert(t.drop_last() =~= strs(answers@).take(i as int));
                assert(t.last() == answers@[i as int]@);
                assert(t.len() == i + 1);
                assert(fallback@ =~= spec_fallback(q@, t));
            }
            i = i + 1;
        }
        proof {
            assert(strs(answers@).take(n as int) =~= strs(answers@));
        }
        Some(PollDraft { question: q, answers, fallback_text: fallback, disclosed })
    }
}


#[verifier::external_type_specification]
#[verifier::external_body]
pub struct ExNewUnstablePollStartEventContent(NewUnstablePollStartEventContent);

/// The content of the event that starts a poll, as `ruma` makes it from the
/// text for clients without polls, the question, the `(id, text)` pairs of
/// the answers, and whether the results show before the poll ends.
pub uninterp spec fn ruma_poll_start(
    text: Seq<char>,
    question: Seq<char>,
    answers: Seq<(Seq<char>, Seq<char>)>,
    disclosed: bool,
) -> NewUnstablePollStartEventContent;

/// The views of `(id, text)` pairs.
pub open spec fn pairs_view(v: Seq<(String, String)>) -> Seq<(Seq<char>, Seq<char>)> {
    v.map_values(|p: (String, String)| (p.0@, p.1@))
}

/// Makes the content of the event that starts a poll with `ruma`: the
/// answers by `UnstablePollAnswer::new(id, text)`, gathered by
/// `UnstablePollAnswers::try_from` (which accepts between 1 and 20 answers),
/// the block by `UnstablePollStartContentBlock::new(question, answers)` with
/// its kind set to `PollKind::Disclosed` or `PollKind::Undisclosed`, and the
/// content by `NewUnstablePollStartEventContent::plain_text(text, block)`.
/// The content is named, not spelled out: the type is opaque here.
#[verifier::external_body]
fn poll_start_event_content(
    text: String,
    question: String,
    answers: Vec<(String, String)>,
    disclosed: bool,
) -> (res: Option<NewUnstablePollStartEventContent>)
    ensures
        res is Some <==> 1 <= answers@.len() <= 20,
        res matches Some(c) ==> c == ruma_poll_start(text@, question@, pairs_view(answers@), disclosed),
{
    let answers: Vec<UnstablePollAnswer> = answers.into_iter().map(|(id, text)| UnstablePollAnswer::new(id, text)).collect();
    let answers = UnstablePollAnswers::try_from(answers).ok()?;
    let mut block = UnstablePollStartContentBlock::new(question, answers);
    block.kind = if disclosed { PollKind::Disclosed } else { PollKind::Undisclosed };
    Some(NewUnstablePollStartEventContent::plain_text(text, block))
}

/// The `(id, text)` pairs of the answers of a poll, the IDs given in order.
pub open spec fn spec_answer_pairs(ids: Seq<String>, answers: Seq<String>) -> Seq<(Seq<char>, Seq<char>)> {
    Seq::new(answers.len(), |i: int| (ids[i]@, answers[i]@))
}

/// The content of the event that starts a poll, with the given IDs for its
/// answers (in order): it can be made when the poll has between 1 and 20
/// answers, which a created poll has; it is then the content that `ruma`
/// makes from the fallback text, the question, the pairs of answer IDs and
/// answers, and whether the poll is disclosed.
pub fn poll_start_content(draft: PollDraft, answer_ids: Vec<String>) -> (res: Option<NewUnstablePollStartEventContent>)
    requires
        answer_ids@.len() == draft.answers@.len(),
    ensures
        res is Some <==> 1 <= draft.answers@.len() <= 20,
        res matches Some(c) ==> c == ruma_poll_start(
            draft.fallback_text@,
            draft.question@,
            spec_answer_pairs(answer_ids@, draft.answers@),
            draft.disclosed,
        ),
{
    let PollDraft { question, answers, fallback_text, disclosed } = draft;
    let n = answers.len();
    let mut pairs: Vec<(String, String)> = Vec::new();
    let mut i: usize = 0;
    while i < n
        invariant
            n == answers@.len(),
            n == answer_ids@.len(),
            0 <= i <= n,
            pairs_view(pairs@) == spec_answer_pairs(answer_ids@, answers@).take(i as int),
        decreases n - i,
    {
        let ghost before = pairs@;
        pairs.push((answer_ids[i].clone(), answers[i].clone()));
        proof {
            assert(pairs_view(pairs@) =~= pairs_view(before).push((answer_ids@[i as int]@, answers@[i as int]@)));
            assert(spec_answer_pairs(answer_ids@, answers@).take(i as int + 1) =~= spec_answer_pairs(
                answer_ids@,
                answers@,
            ).take(i as int).push((answer_ids@[i as int]@, answers@[i as int]@)));
        }
        i = i + 1;
    }
    proof {
        assert(spec_answer_pairs(answer_ids@, answers@).take(n as int) =~= spec_answer_pairs(answer_ids@, answers@));
    }
    poll_start_event_content(fallback_text, question, pairs, disclosed)
}

/// A poll that the dialog created can always be sent: its content can be
/// made.
pub proof fn law_created_poll_can_be_sent(n: int)
    requires
        MIN_ANSWERS <= n <= MAX_ANSWERS,
    ensures
        1 <= n <= 20,
{
}

} // verus!
