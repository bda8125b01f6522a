//! Grading of a submitted test against its answer key.

use vstd::prelude::*;
use crate::errors::{failed, test_not_found, AppError, ErrorKind};
use crate::models::{AnswerPayload, TestResultResponse, TestSubmissionPayload};

verus! {

/// The answer that counts for a question: the first one submitted for it.
pub open spec fn counted_answer(answers: Seq<AnswerPayload>, question_id: i32) -> Option<Seq<char>>
    decreases answers.len(),
{
    if answers.len() == 0 {
        None
    } else if answers[0].question_id == question_id {
        Some(answers[0].answer@)
    } else {
        counted_answer(answers.drop_first(), question_id)
    }
}

/// A question is credited when the answer that counts for it is the
/// correct one, character for character.
pub open spec fn credited(key: (i32, String), answers: Seq<AnswerPayload>) -> bool {
    counted_answer(answers, key.0) == Some(key.1@)
}

/// The number of credited questions of an answer key.
pub open spec fn score_of(keys: Seq<(i32, String)>, answers: Seq<AnswerPayload>) -> nat
    decreases keys.len(),
{
    if keys.len() == 0 {
        0
    } else {
        score_of(keys.drop_last(), answers) + if credited(keys.last(), answers) {
            1nat
        } else {
            0nat
        }
    }
}

/// A score never exceeds the number of questions.
pub proof fn lemma_score_bounded(keys: Seq<(i32, String)>, answers: Seq<AnswerPayload>)
    ensures
        score_of(keys, answers) <= keys.len(),
    decreases keys.len(),
{
    if keys.len() > 0 {
        lemma_score_bounded(keys.drop_last(), answers);
    }
}

/// Whether the question of `key` is credited by `answers`.
fn is_credited(key: &(i32, String), answers: &Vec<AnswerPayload>) -> (yes: bool)
    ensures
        yes == credited(*key, answers@),
{
    let mut i: usize = 0;
    proof {
        assert(answers@.skip(0) =~= answers@);
    }
    while i < answers.len()
        invariant
            i <= answers@.len(),
            counted_answer(answers@, key.0) == counted_answer(answers@.skip(i as int), key.0),
        decreases answers@.len() - i,
    {
        proof {
            assert(answers@.skip(i as int).drop_first() =~= answers@.skip(i + 1));
        }
        if answers[i].question_id == key.0 {
            return answers[i].answer == key.1;
        }
        i += 1;
    }
    false
}

/// Grades a submission against the answer key of a test.
///
/// A test without questions is reported as not found. Otherwise every
/// question of the key counts once, whatever the submission holds.
pub fn grade_submission(keys: &Vec<(i32, String)>, submission: &TestSubmissionPayload) -> (result:
    Result<TestResultResponse, AppError>)
    ensures
        keys@.len() == 0 ==> failed(result, test_not_found()),
        keys@.len() > 0 ==> result == Ok::<TestResultResponse, AppError>(
            TestResultResponse {
                score: score_of(keys@, submission.answers@) as usize,
                total_questions: keys@.len() as usize,
            },
        ),
        result matches Ok(grade) ==> grade.score <= grade.total_questions,
{
    let total_questions = keys.len();
    if total_questions == 0 {
        return Err(AppError::new(ErrorKind::NotFound, "test not found or has no questions"));
    }
    let mut score: usize = 0;
    let mut i: usize = 0;
    while i < total_questions
        invariant
            total_questions == keys@.len(),
            i <= total_questions,
            score == score_of(keys@.take(i as int), submission.answers@),
            score <= i,
        decreases total_questions - i,
    {
        proof {
            assert(keys@.take(i + 1).drop_last() =~= keys@.take(i as int));
        }
        if is_credited(&keys[i], &submission.answers) {
            score += 1;
        }
        i += 1;
    }
    proof {
        assert(keys@.take(total_questions as int) =~= keys@);
    }
    Ok(TestResultResponse { score, total_questions })
}

} // verus!
