//! What a user answered in a quiz, and the review that collects the answers.

use vstd::prelude::*;

verus! {

/// One answered question: what was asked, what the user submitted, what was
/// expected, and whether the two agree.
#[derive(Debug, PartialEq)]
pub struct Response {
    question: String,
    is_correct: bool,
    submitted: String,
    answer: String,
}

/// The mathematical content of a `Response`.
pub struct ResponseView {
    pub question: Seq<char>,
    pub is_correct: bool,
    pub submitted: Seq<char>,
    pub answer: Seq<char>,
}

impl View for Response {
    type V = ResponseView;

    closed spec fn view(&self) -> ResponseView {
        ResponseView {
            question: self.question@,
            is_correct: self.is_correct,
            submitted: self.submitted@,
            answer: self.answer@,
        }
    }
}

impl Clone for Response {
    fn clone(&self) -> (copy: Response)
        ensures
            copy@ == self@,
    {
        Response {
            question: self.question.clone(),
            is_correct: self.is_correct,
            submitted: self.submitted.clone(),
            answer: self.answer.clone(),
        }
    }
}

impl Response {
    /// Marks a submitted answer: it is correct exactly when it is the
    /// expected answer, letter for letter.
    pub fn new(question: String, submitted: String, answer: String) -> (response: Response)
        ensures
            response@ == (ResponseView {
                question: question@,
                is_correct: submitted@ == answer@,
                submitted: submitted@,
                answer: answer@,
            }),
    {
        let is_correct = submitted == answer;
        Response { question, is_correct, submitted, answer }
    }

    /// Whether the submitted answer was the expected one.
    pub fn is_correct(&self) -> (correct: bool)
        ensures
            correct == self@.is_correct,
    {
        self.is_correct
    }

    /// The question that was asked.
    pub fn question(&self) -> (question: &String)
        ensures
            question@ == self@.question,
    {
        &self.question
    }

    /// The answer that the user submitted.
    pub fn submitted(&self) -> (submitted: &String)
        ensures
            submitted@ == self@.submitted,
    {
        &self.submitted
    }

    /// The answer that was expected.
    pub fn answer(&self) -> (answer: &String)
        ensures
            answer@ == self@.answer,
    {
        &self.answer
    }
}

/// The contents of a sequence of responses.
pub open spec fn response_views(responses: Seq<Response>) -> Seq<ResponseView> {
    Seq::new(responses.len(), |i: int| responses[i]@)
}

fn copy_responses(responses: &Vec<Response>) -> (copy: Vec<Response>)
    ensures
        response_views(copy@) == response_views(responses@),
{
    let mut copy: Vec<Response> = Vec::with_capacity(responses.len());
    let mut i: usize = 0;
    while i < responses.len()
        invariant
            i <= responses.len(),
            copy@.len() == i,
            forall|k: int| 0 <= k < i ==> (#[trigger] copy@[k])@ == responses@[k]@,
        decreases responses.len() - i,
    {
        copy.push(responses[i].clone());
        i += 1;
    }
    assert(response_views(copy@) =~= response_views(responses@));
    copy
}

/// The answers of one user to one quiz.
#[derive(Debug)]
pub struct QuizReview {
    pub username: String,
    pub responses: Vec<Response>,
}

/// The mathematical content of a `QuizReview`.
pub struct QuizReviewView {
    pub username: Seq<char>,
    pub responses: Seq<ResponseView>,
}

impl View for QuizReview {
    type V = QuizReviewView;

    open spec fn view(&self) -> QuizReviewView {
        QuizReviewView {
            username: self.username@,
            responses: response_views(self.responses@),
        }
    }
}

impl Clone for QuizReview {
    fn clone(&self) -> (copy: QuizReview)
        ensures
            copy@ == self@,
    {
        QuizReview { username: self.username.clone(), responses: copy_responses(&self.responses) }
    }
}

impl QuizReview {
    /// The review of `username` with the given responses.
    pub fn new(username: String, responses: Vec<Response>) -> (review: QuizReview)
        ensures
            review@ == (QuizReviewView {
                username: username@,
                responses: response_views(responses@),
            }),
    {
        QuizReview { username, responses }
    }
}

} // verus!
