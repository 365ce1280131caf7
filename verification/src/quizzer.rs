//! Multiple-choice quizzes: questions, the answers somebody chose, and the
//! score they add up to.

use vstd::prelude::*;

verus! {

/// The four options of a question.
#[derive(Debug, Copy, Clone, PartialEq, Eq, Structural)]
pub enum Options {
    A,
    B,
    C,
    D,
}

impl Options {
    /// The letter of the option.
    pub fn name(&self) -> (s: &'static str)
        ensures
            s@ == (match *self {
                Options::A => "A"@,
                Options::B => "B"@,
                Options::C => "C"@,
                Options::D => "D"@,
            }),
    {
        match self {
            Options::A => "A",
            Options::B => "B",
            Options::C => "C",
            Options::D => "D",
        }
    }
}

/// A question with its four options and the one that is right.
#[derive(Debug, Clone, PartialEq, Eq)]
pub struct Question {
    pub stem: String,
    pub option_a: String,
    pub option_b: String,
    pub option_c: String,
    pub option_d: String,
    pub key: Options,
}

impl Question {
    /// The text of option `index`.
    pub open spec fn option(self, index: Options) -> String {
        match index {
            Options::A => self.option_a,
            Options::B => self.option_b,
            Options::C => self.option_c,
            Options::D => self.option_d,
        }
    }

}

impl std::ops::Index<Options> for Question {
    type Output = String;

    /// The text of option `index`.
    fn index(&self, index: Options) -> (text: &String)
        ensures
            *text == self.option(index),
    {
        match index {
            Options::A => &self.option_a,
            Options::B => &self.option_b,
            Options::C => &self.option_c,
            Options::D => &self.option_d,
        }
    }
}

impl vstd::std_specs::core::IndexSpecImpl<Options> for Question {
    /// Every option has a text.
    open spec fn index_req(&self, index: &Options) -> bool {
        true
    }
}

/// A list of questions, numbered from 1.
#[derive(Debug, Clone, PartialEq, Eq)]
pub struct Quiz {
    questions: Vec<Question>,
}

impl View for Quiz {
    type V = Seq<Question>;

    closed spec fn view(&self) -> Seq<Question> {
        self.questions@
    }
}

/// The questions of `questions`, each with its number.
pub open spec fn numbered<'a>(questions: Seq<Question>) -> Seq<(usize, &'a Question)> {
    Seq::new(questions.len(), |i: int| ((i + 1) as usize, &questions[i]))
}

/// An iterator over the questions of a quiz and their numbers.
pub struct Numbered<'a> {
    questions: &'a Vec<Question>,
    next: usize,
}

impl<'a> Numbered<'a> {
    /// The numbered questions that have not been handed out yet.
    pub closed spec fn left(self) -> Seq<(usize, &'a Question)> {
        if self.next <= self.questions@.len() {
            numbered(self.questions@).skip(self.next as int)
        } else {
            Seq::empty()
        }
    }
}

impl<'a> Iterator for Numbered<'a> {
    type Item = (usize, &'a Question);

    fn next(&mut self) -> (item: Option<(usize, &'a Question)>) {
        if self.next < self.questions.len() {
            let question = &self.questions[self.next];
            self.next = self.next + 1;
            assert(self.left() =~= old(self).left().drop_first());
            Some((self.next, question))
        } else {
            assert(self.left() =~= Seq::<(usize, &'a Question)>::empty());
            None
        }
    }
}

impl<'a> vstd::std_specs::iter::IteratorSpecImpl for Numbered<'a> {
    open spec fn obeys_prophetic_iter_laws(&self) -> bool {
        true
    }

    open spec fn remaining(&self) -> Seq<(usize, &'a Question)> {
        self.left()
    }

    open spec fn will_return_none(&self) -> bool {
        true
    }

    open spec fn decrease(&self) -> Option<nat> {
        Some(self.left().len())
    }

    open spec fn initial_value_relation(&self, init: &Self) -> bool {
        init.left() == self.left()
    }

    open spec fn peek(&self, index: int) -> Option<(usize, &'a Question)> {
        if 0 <= index < self.left().len() {
            Some(self.left()[index])
        } else {
            None
        }
    }
}

/// Why an answer was not taken.
#[derive(Debug, Copy, Clone, PartialEq, Eq, Structural)]
pub enum ChooseError {
    /// No question has that number.
    InvalidQuestionNumber,
}

impl ChooseError {
    /// The error in words.
    pub fn message(&self) -> (s: &'static str)
        ensures
            s@ == "Invalid question number"@,
    {
        "Invalid question number"
    }
}

/// How many of `answers` name the key of their question, among the first
/// `n` questions.
pub open spec fn correct_among(
    questions: Seq<Question>,
    answers: Seq<Option<Options>>,
    n: nat,
) -> nat
    decreases n,
{
    if n == 0 {
        0
    } else {
        let i = (n - 1) as nat;
        correct_among(questions, answers, i) + (if answers[i as int] == Some(
            questions[i as int].key,
        ) {
            1nat
        } else {
            0nat
        })
    }
}

impl Quiz {
    pub fn new() -> (quiz: Quiz)
        ensures
            quiz@ == Seq::<Question>::empty(),
    {
        Quiz { questions: Vec::new() }
    }

    pub fn len(&self) -> (n: usize)
        ensures
            n == self@.len(),
    {
        self.questions.len()
    }

    pub fn add_question(&mut self, q: Question)
        ensures
            final(self)@ == old(self)@.push(q),
    {
        self.questions.push(q)
    }

    /// The questions in order, each with its number: the first is number 1.
    pub fn iter<'a>(&'a self) -> (items: Numbered<'a>)
        ensures
            items.left() == numbered(self@),
    {
        let items = Numbered { questions: &self.questions, next: 0 };
        assert(items.left() =~= numbered(self@));
        items
    }

    /// An answer sheet for this quiz with nothing chosen yet.
    pub fn new_answers<'a>(&'a self) -> (sheet: Answers<'a>)
        ensures
            sheet.wf(),
            sheet.quiz() == self,
            sheet@.len() == self@.len(),
            forall|i: int| 0 <= i < self@.len() ==> sheet@[i] == None::<Options>,
    {
        let mut answers: Vec<Option<Options>> = Vec::new();
        let mut idx: usize = 0;
        while idx < self.questions.len()
            invariant
                idx <= self.questions.len(),
                answers@.len() == idx,
                forall|i: int| 0 <= i < idx ==> answers@[i] == None::<Options>,
            decreases self.questions.len() - idx,
        {
            answers.push(None);
            idx = idx + 1;
        }
        Answers { quiz: self, answers }
    }
}

/// The options chosen so far for the questions of one quiz.
pub struct Answers<'a> {
    quiz: &'a Quiz,
    answers: Vec<Option<Options>>,
}

impl<'a> View for Answers<'a> {
    type V = Seq<Option<Options>>;

    closed spec fn view(&self) -> Seq<Option<Options>> {
        self.answers@
    }
}

/// The outcome of a quiz.
pub struct Score {
    pub total: usize,
    pub correct: usize,
}

impl<'a> Answers<'a> {
    /// The quiz that the answers are for.
    pub closed spec fn quiz(self) -> &'a Quiz {
        self.quiz
    }

    /// There is one entry for each question.
    pub closed spec fn wf(self) -> bool {
        self.answers@.len() == self.quiz@.len()
    }

    /// Records `choice` as the answer to question number `num`, counted
    /// from 1. A number that no question has is refused.
    pub fn choose_answer(&mut self, num: usize, choice: Options) -> (r: Result<(), ChooseError>)
        requires
            old(self).wf(),
        ensures
            final(self).wf(),
            final(self).quiz() == old(self).quiz(),
            r is Ok <==> 1 <= num <= old(self).quiz()@.len(),
            r is Ok ==> final(self)@ == old(self)@.update(num - 1, Some(choice)),
            r is Err ==> final(self)@ == old(self)@ && r == Err::<(), ChooseError>(
                ChooseError::InvalidQuestionNumber,
            ),
    {
        if num < 1 || num > self.quiz.len() {
            return Err(ChooseError::InvalidQuestionNumber);
        }
        self.answers.set(num - 1, Some(choice));
        Ok(())
    }

    /// Counts the questions whose chosen option is the key.
    pub fn score(&self) -> (score: Score)
        requires
            self.wf(),
        ensures
            score.total == self.quiz()@.len(),
            score.correct == correct_among(self.quiz()@, self@, self@.len()),
            score.correct <= score.total,
    {
        let total = self.quiz.len();
        let mut correct: usize = 0;
        let mut idx: usize = 0;
        while idx < total
            invariant
                idx <= total,
                total == self.quiz.questions@.len(),
                total == self.answers@.len(),
                correct <= idx,
                correct == correct_among(self.quiz.questions@, self.answers@, idx as nat),
            decreases total - idx,
        {
            let hit = match self.answers[idx] {
                Some(choice) => choice == self.quiz.questions[idx].key,
                None => false,
            };
            if hit {
                correct = correct + 1;
            }
            idx = idx + 1;
        }
        Score { total, correct }
    }
}

/// The score never counts more right answers than there are questions, and
/// a sheet on which nothing is chosen scores nothing.
pub proof fn law_score_bounds(questions: Seq<Question>, answers: Seq<Option<Options>>, n: nat)
    requires
        n <= questions.len(),
        n <= answers.len(),
    ensures
        correct_among(questions, answers, n) <= n,
        (forall|i: int| 0 <= i < n ==> answers[i] == None::<Options>) ==> correct_among(
            questions,
            answers,
            n,
        ) == 0,
    decreases n,
{
    if n > 0 {
        law_score_bounds(questions, answers, (n - 1) as nat);
    }
}

/// Changing the answer to one question changes the count only by what
/// that question contributes.
pub proof fn law_score_of_choice(
    questions: Seq<Question>,
    answers: Seq<Option<Options>>,
    k: int,
    choice: Options,
    n: nat,
)
    requires
        n <= questions.len(),
        n <= answers.len(),
        0 <= k < answers.len(),
    ensures
        correct_among(questions, answers.update(k, Some(choice)), n) + (if k < n && answers[k]
            == Some(questions[k].key) {
            1nat
        } else {
            0nat
        }) == correct_among(questions, answers, n) + (if k < n && choice == questions[k].key {
            1nat
        } else {
            0nat
        }),
    decreases n,
{
    if n > 0 {
        law_score_of_choice(questions, answers, k, choice, (n - 1) as nat);
    }
}

/// What came of asking the user something at the terminal.
#[derive(Debug, Copy, Clone, PartialEq, Eq, Structural)]
pub enum Prompted<T> {
    /// The user answered.
    Answer(T),
    /// The user cancelled or interrupted the question.
    Cancelled,
    /// Asking failed for another reason.
    Failed,
}

/// What to do after asking for the answer to a question.
#[derive(Debug, Copy, Clone, PartialEq, Eq, Structural)]
pub enum AnswerStep {
    /// Record the option and go on to the next question.
    Record(Options),
    /// Ask whether the user wants to quit.
    ConfirmQuit,
    /// Give up with the failure.
    GiveUp,
}

/// What to do after asking whether the user wants to quit.
#[derive(Debug, Copy, Clone, PartialEq, Eq, Structural)]
pub enum QuitStep {
    /// End the quiz.
    Quit,
    /// Ask for the answer again.
    AskAgain,
    /// Give up with the failure.
    GiveUp,
}

/// Decides how a quiz goes on after the user was asked for an answer: an
/// answer is recorded, a cancelled question leads to asking whether to
/// quit, and a failure ends the quiz.
pub fn after_answer(asked: Prompted<Options>) -> (step: AnswerStep)
    ensures
        step == (match asked {
            Prompted::Answer(choice) => AnswerStep::Record(choice),
            Prompted::Cancelled => AnswerStep::ConfirmQuit,
            Prompted::Failed => AnswerStep::GiveUp,
        }),
{
    match asked {
        Prompted::Answer(choice) => AnswerStep::Record(choice),
        Prompted::Cancelled => AnswerStep::ConfirmQuit,
        Prompted::Failed => AnswerStep::GiveUp,
    }
}

/// Decides how a quiz goes on after the user was asked whether to quit:
/// only a yes quits; a no and a cancelled question lead back to the
/// answer, and a failure ends the quiz.
pub fn after_quit_prompt(asked: Prompted<bool>) -> (step: QuitStep)
    ensures
        step == (match asked {
            Prompted::Answer(yes) => if yes {
                QuitStep::Quit
            } else {
                QuitStep::AskAgain
            },
            Prompted::Cancelled => QuitStep::AskAgain,
            Prompted::Failed => QuitStep::GiveUp,
        }),
{
    match asked {
        Prompted::Answer(true) => QuitStep::Quit,
        Prompted::Answer(false) => QuitStep::AskAgain,
        Prompted::Cancelled => QuitStep::AskAgain,
        Prompted::Failed => QuitStep::GiveUp,
    }
}

/// Whether another question is entered after the user was asked so: only
/// after a yes.
pub fn wants_more(asked: Prompted<bool>) -> (more: bool)
    ensures
        more == (asked == Prompted::Answer(true)),
{
    match asked {
        Prompted::Answer(yes) => yes,
        _ => false,
    }
}

} // verus!
