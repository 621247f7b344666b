//! Questions, question sets, and the form state from which questions are
//! built.

use crate::order::reversed;
use vstd::prelude::*;

verus! {

/// A finished question.
#[derive(Debug, PartialEq, Eq, PartialOrd, Ord)]
pub struct Question {
    title: String,
    markup: String,
    calculator_allowed: bool,
    answer: String,
}

/// The mathematical content of a `Question`.
pub struct QuestionView {
    pub title: Seq<char>,
    pub markup: Seq<char>,
    pub calculator_allowed: bool,
    pub answer: Seq<char>,
}

impl View for Question {
    type V = QuestionView;

    closed spec fn view(&self) -> QuestionView {
        QuestionView {
            title: self.title@,
            markup: self.markup@,
            calculator_allowed: self.calculator_allowed,
            answer: self.answer@,
        }
    }
}

impl Clone for Question {
    fn clone(&self) -> (copy: Question)
        ensures
            copy@ == self@,
    {
        Question {
            title: self.title.clone(),
            markup: self.markup.clone(),
            calculator_allowed: self.calculator_allowed,
            answer: self.answer.clone(),
        }
    }
}

impl Question {
    /// The title of the question.
    pub fn title(&self) -> (title: &String)
        ensures
            title@ == self@.title,
    {
        &self.title
    }

    /// The text of the question.
    pub fn markup(&self) -> (markup: &String)
        ensures
            markup@ == self@.markup,
    {
        &self.markup
    }

    /// Whether a calculator may be used.
    pub fn calculator_allowed(&self) -> (allowed: bool)
        ensures
            allowed == self@.calculator_allowed,
    {
        self.calculator_allowed
    }

    /// The expected answer.
    pub fn answer(&self) -> (answer: &String)
        ensures
            answer@ == self@.answer,
    {
        &self.answer
    }
}

/// A question as far as a form has been filled in.
#[derive(Debug, PartialEq, Eq, PartialOrd, Ord)]
pub struct PartialQuestion {
    pub title: Option<String>,
    pub markup: Option<String>,
    pub calculator_allowed: Option<bool>,
    pub answer: Option<String>,
}

/// The mathematical content of a `PartialQuestion`.
pub struct PartialQuestionView {
    pub title: Option<Seq<char>>,
    pub markup: Option<Seq<char>>,
    pub calculator_allowed: Option<bool>,
    pub answer: Option<Seq<char>>,
}

/// The content of a text field that may be empty.
pub open spec fn text_view(text: Option<String>) -> Option<Seq<char>> {
    match text {
        Some(t) => Some(t@),
        None => None,
    }
}

impl View for PartialQuestion {
    type V = PartialQuestionView;

    open spec fn view(&self) -> PartialQuestionView {
        PartialQuestionView {
            title: text_view(self.title),
            markup: text_view(self.markup),
            calculator_allowed: self.calculator_allowed,
            answer: text_view(self.answer),
        }
    }
}

impl PartialQuestionView {
    /// A form with nothing filled in.
    pub open spec fn blank() -> PartialQuestionView {
        PartialQuestionView { title: None, markup: None, calculator_allowed: None, answer: None }
    }

    /// Every field is filled in.
    pub open spec fn complete(self) -> bool {
        self.title is Some && self.markup is Some && self.calculator_allowed is Some
            && self.answer is Some
    }

    /// The question that a complete form spells.
    pub open spec fn question(self) -> QuestionView {
        QuestionView {
            title: self.title->0,
            markup: self.markup->0,
            calculator_allowed: self.calculator_allowed->0,
            answer: self.answer->0,
        }
    }

    /// The question of a complete form, and `None` for any other.
    pub open spec fn built(self) -> Option<QuestionView> {
        if self.complete() {
            Some(self.question())
        } else {
            None
        }
    }
}

fn copy_text(text: &Option<String>) -> (copy: Option<String>)
    ensures
        text_view(copy) == text_view(*text),
{
    match text {
        Some(t) => Some(t.clone()),
        None => None,
    }
}

impl Clone for PartialQuestion {
    fn clone(&self) -> (copy: PartialQuestion)
        ensures
            copy@ == self@,
    {
        PartialQuestion {
            title: copy_text(&self.title),
            markup: copy_text(&self.markup),
            calculator_allowed: self.calculator_allowed,
            answer: copy_text(&self.answer),
        }
    }
}

impl PartialQuestion {
    /// A form with nothing filled in.
    pub fn new() -> (partial: PartialQuestion)
        ensures
            partial@ == PartialQuestionView::blank(),
    {
        PartialQuestion { title: None, markup: None, calculator_allowed: None, answer: None }
    }

    /// Turns the form into a question.
    ///
    /// Returns the question when every field is filled in, and `None` when
    /// any is missing.
    pub fn build(self) -> (question: Option<Question>)
        ensures
            match question {
                Some(q) => self@.built() == Some(q@),
                None => self@.built() is None,
            },
    {
        match (self.title, self.markup, self.calculator_allowed, self.answer) {
            (Some(title), Some(markup), Some(calculator_allowed), Some(answer)) => Some(
                Question { title, markup, calculator_allowed, answer },
            ),
            _ => None,
        }
    }
}

/// The contents of a sequence of forms.
pub open spec fn partial_views(partials: Seq<PartialQuestion>) -> Seq<PartialQuestionView> {
    Seq::new(partials.len(), |i: int| partials[i]@)
}

/// The contents of a sequence of questions.
pub open spec fn question_views(questions: Seq<Question>) -> Seq<QuestionView> {
    Seq::new(questions.len(), |i: int| questions[i]@)
}

/// Every form of `partials` is complete.
pub open spec fn all_complete(partials: Seq<PartialQuestionView>) -> bool {
    forall|i: int| 0 <= i < partials.len() ==> (#[trigger] partials[i]).complete()
}

/// The questions that the forms of `partials` spell, in the same order.
pub open spec fn all_questions(partials: Seq<PartialQuestionView>) -> Seq<QuestionView> {
    Seq::new(partials.len(), |i: int| partials[i].question())
}

/// The forms of a question set that is being written, one per question.
#[derive(Debug, PartialEq, Eq, PartialOrd, Ord)]
pub struct QuestionBuilder {
    inner: Vec<PartialQuestion>,
}

impl View for QuestionBuilder {
    type V = Seq<PartialQuestionView>;

    closed spec fn view(&self) -> Seq<PartialQuestionView> {
        partial_views(self.inner@)
    }
}

impl Clone for QuestionBuilder {
    fn clone(&self) -> (copy: QuestionBuilder)
        ensures
            copy@ == self@,
    {
        let mut inner: Vec<PartialQuestion> = Vec::new();
        let mut i: usize = 0;
        while i < self.inner.len()
            invariant
                i <= self.inner.len(),
                inner@.len() == i,
                forall|k: int| 0 <= k < i ==> (#[trigger] inner@[k])@ == self.inner@[k]@,
            decreases self.inner.len() - i,
        {
            inner.push(self.inner[i].clone());
            i += 1;
        }
        let copy = QuestionBuilder { inner };
        assert(copy@ =~= self@);
        copy
    }
}

impl QuestionBuilder {
    /// A builder without forms.
    pub fn new() -> (builder: QuestionBuilder)
        ensures
            builder@ == Seq::<PartialQuestionView>::empty(),
    {
        let builder = QuestionBuilder { inner: Vec::new() };
        assert(builder@ =~= Seq::<PartialQuestionView>::empty());
        builder
    }

    /// The number of forms.
    pub fn len(&self) -> (count: usize)
        ensures
            count == self@.len(),
    {
        self.inner.len()
    }

    /// A copy of the form at place `i`.
    ///
    /// Asking for the place just behind the last form appends a blank form
    /// first, so the forms can be filled in one after the other. Any place
    /// further behind is out of range.
    pub fn get(&mut self, i: usize) -> (partial: PartialQuestion)
        requires
            i <= old(self)@.len(),
        ensures
            final(self)@ == if i == old(self)@.len() {
                old(self)@.push(PartialQuestionView::blank())
            } else {
                old(self)@
            },
            partial@ == final(self)@[i as int],
    {
        if self.inner.len() == i {
            self.inner.push(PartialQuestion::new());
            assert(self@ =~= old(self)@.push(PartialQuestionView::blank()));
        }
        self.inner[i].clone()
    }

    /// Replaces the form at place `i`, which must exist.
    pub fn set(&mut self, i: usize, v: PartialQuestion)
        requires
            i < old(self)@.len(),
        ensures
            final(self)@ == old(self)@.update(i as int, v@),
    {
        self.inner.set(i, v);
        assert(self@ =~= old(self)@.update(i as int, v@));
    }

    /// Turns the forms into questions.
    ///
    /// Returns the questions, in the order of the forms, when every form is
    /// complete, and `None` when any form misses a field.
    pub fn build(self) -> (questions: Option<Vec<Question>>)
        ensures
            match questions {
                Some(qs) => all_complete(self@) && question_views(qs@) == all_questions(self@),
                None => !all_complete(self@),
            },
    {
        let ghost forms = self@;
        let mut pending = reversed(self.inner);
        let mut out: Vec<Question> = Vec::with_capacity(pending.len());
        while pending.len() > 0
            invariant
                forms == self@,
                pending@.len() <= forms.len(),
                out@.len() == forms.len() - pending@.len(),
                forall|k: int|
                    0 <= k < pending@.len() ==> (#[trigger] pending@[k])@ == forms[forms.len() - 1
                        - k],
                forall|k: int| 0 <= k < out@.len() ==> (#[trigger] forms[k]).complete(),
                forall|k: int| 0 <= k < out@.len() ==> (#[trigger] out@[k])@ == forms[k].question(),
            decreases pending@.len(),
        {
            let ghost next = forms.len() - pending@.len();
            match pending.pop() {
                Some(partial) => match partial.build() {
                    Some(question) => {
                        out.push(question);
                    },
                    None => {
                        assert(!forms[next].complete());
                        return None;
                    },
                },
                None => {},
            }
        }
        assert(question_views(out@) =~= all_questions(forms));
        Some(out)
    }
}

/// A named set of questions and who wrote it.
#[derive(Debug, PartialEq)]
pub struct QuestionSet {
    name: String,
    author: String,
    questions: Vec<Question>,
}

/// The mathematical content of a `QuestionSet`.
pub struct QuestionSetView {
    pub name: Seq<char>,
    pub author: Seq<char>,
    pub questions: Seq<QuestionView>,
}

impl View for QuestionSet {
    type V = QuestionSetView;

    closed spec fn view(&self) -> QuestionSetView {
        QuestionSetView {
            name: self.name@,
            author: self.author@,
            questions: question_views(self.questions@),
        }
    }
}

impl Clone for QuestionSet {
    fn clone(&self) -> (copy: QuestionSet)
        ensures
            copy@ == self@,
    {
        let mut questions: Vec<Question> = Vec::with_capacity(self.questions.len());
        let mut i: usize = 0;
        while i < self.questions.len()
            invariant
                i <= self.questions.len(),
                questions@.len() == i,
                forall|k: int| 0 <= k < i ==> (#[trigger] questions@[k])@ == self.questions@[k]@,
            decreases self.questions.len() - i,
        {
            questions.push(self.questions[i].clone());
            i += 1;
        }
        assert(question_views(questions@) =~= question_views(self.questions@));
        QuestionSet { name: self.name.clone(), author: self.author.clone(), questions }
    }
}

impl QuestionSet {
    /// A set with the given name, author and questions.
    pub fn new(name: String, author: String, questions: Vec<Question>) -> (set: QuestionSet)
        ensures
            set@ == (QuestionSetView {
                name: name@,
                author: author@,
                questions: question_views(questions@),
            }),
    {
        QuestionSet { name, author, questions }
    }

    /// The name of the set.
    pub fn name(&self) -> (name: &String)
        ensures
            name@ == self@.name,
    {
        &self.name
    }

    /// The username of the author.
    pub fn author(&self) -> (author: &String)
        ensures
            author@ == self@.author,
    {
        &self.author
    }

    /// The questions, in order.
    pub fn questions(&self) -> (questions: &Vec<Question>)
        ensures
            question_views(questions@) == self@.questions,
    {
        &self.questions
    }
}

} // verus!
