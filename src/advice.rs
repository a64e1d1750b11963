//! The advice comment: the prompt sent to the text generator, and the decision
//! the advice worker takes after each attempt to get a reply.

use vstd::prelude::*;

verus! {

/// How many times the worker asks for advice before it gives up.
pub const MAX_ADVICE_ATTEMPTS: u32 = 5;

/// The content stored in place of advice that could not be had.
pub const ADVICE_FAILED: &'static str = "Error";

/// The prompt up to the post's content.
pub const PROMPT_HEAD: &'static str = "Depending on this message \"";

/// The prompt after the post's content.
pub const PROMPT_TAIL: &'static str =
    "\", what advice would you give this person? Keep your advice under 4 sentences. Only respond with the advice.";

/// The prompt that asks for advice on a post of `content`.
pub open spec fn prompt_text(content: Seq<char>) -> Seq<char> {
    PROMPT_HEAD@ + content + PROMPT_TAIL@
}

/// The prompt that asks for advice on a post of `content`.
pub fn advice_prompt(content: &str) -> (r: String)
    ensures
        r@ == prompt_text(content@),
{
    let mut prompt = String::from_str(PROMPT_HEAD);
    prompt.append(content);
    prompt.append(PROMPT_TAIL);
    prompt
}

/// What the worker does after an attempt.
#[derive(Debug)]
pub enum AdviceStep {
    /// Ask again.
    Retry,
    /// Store this text in the advice comment and stop.
    Done(String),
}

/// The worker's decision after its attempt number `attempt` (counted from 1),
/// which brought `reply` (`None` where the attempt failed): a reply is stored;
/// a failure is retried until `MAX_ADVICE_ATTEMPTS` attempts have failed, and
/// then `ADVICE_FAILED` is stored.
pub fn after_advice_attempt(attempt: u32, reply: Option<String>) -> (r: AdviceStep)
    ensures
        match reply {
            Some(text) => r matches AdviceStep::Done(d) && d@ == text@,
            None => if attempt < MAX_ADVICE_ATTEMPTS {
                r is Retry
            } else {
                r matches AdviceStep::Done(d) && d@ == ADVICE_FAILED@
            },
        },
{
    match reply {
        Some(text) => AdviceStep::Done(text),
        None => {
            if attempt < MAX_ADVICE_ATTEMPTS {
                AdviceStep::Retry
            } else {
                AdviceStep::Done(String::from_str(ADVICE_FAILED))
            }
        },
    }
}

} // verus!
