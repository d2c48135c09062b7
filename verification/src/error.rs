//! The error that resolving a startup layout reports.

use crate::text::{join, joined};
use vstd::prelude::*;

verus! {

/// Why something failed: what was being done, and below it what went wrong,
/// down to the root cause.
#[derive(Clone, Debug, PartialEq, Eq)]
pub struct StartupError {
    /// What was being done.
    pub message: String,
    /// What went wrong below it, the root cause last.
    pub causes: Vec<String>,
}

impl View for StartupError {
    type V = Seq<Seq<char>>;

    /// The message and its causes, outermost first.
    open spec fn view(&self) -> Seq<Seq<char>> {
        seq![self.message@] + self.causes.deep_view()
    }
}

impl DeepView for StartupError {
    type V = Seq<Seq<char>>;

    open spec fn deep_view(&self) -> Seq<Seq<char>> {
        self@
    }
}

/// What a fallible function returned, as mathematical values.
pub open spec fn outcome<T: DeepView>(result: Result<T, StartupError>) -> Result<
    T::V,
    Seq<Seq<char>>,
> {
    match result {
        Ok(value) => Ok(value.deep_view()),
        Err(error) => Err(error@),
    }
}

/// An outcome whose error, if it is one, is put under a further message.
pub open spec fn in_context<T>(
    result: Result<T, Seq<Seq<char>>>,
    message: Seq<char>,
) -> Result<T, Seq<Seq<char>>> {
    match result {
        Ok(value) => Ok(value),
        Err(messages) => Err(seq![message] + messages),
    }
}

/// The values that `step` gives for `0`, `1` and so on below `n`; the first
/// failure decides the error.
pub open spec fn collected<T>(
    n: nat,
    step: spec_fn(int) -> Result<T, Seq<Seq<char>>>,
) -> Result<Seq<T>, Seq<Seq<char>>>
    decreases n,
{
    if n == 0 {
        Ok(Seq::empty())
    } else {
        match collected((n - 1) as nat, step) {
            Ok(front) => match step(n - 1) {
                Ok(last) => Ok(front.push(last)),
                Err(messages) => Err(messages),
            },
            Err(messages) => Err(messages),
        }
    }
}

/// A failure below `n` decides the error up to any bound beyond.
pub proof fn lemma_collected_failure<T>(
    n: nat,
    bound: nat,
    step: spec_fn(int) -> Result<T, Seq<Seq<char>>>,
)
    requires
        n <= bound,
        collected(n, step) is Err,
    ensures
        collected(bound, step) == collected(n, step),
    decreases bound,
{
    if n < bound {
        lemma_collected_failure(n, (bound - 1) as nat, step);
    }
}

/// As many values are collected as there are steps, each from its own step.
pub proof fn lemma_collected_values<T>(n: nat, step: spec_fn(int) -> Result<T, Seq<Seq<char>>>)
    requires
        collected(n, step) is Ok,
    ensures
        collected(n, step)->Ok_0.len() == n,
        forall|i: int|
            0 <= i < n ==> step(i) == Ok::<T, Seq<Seq<char>>>(#[trigger] collected(n, step)->Ok_0[i]),
    decreases n,
{
    if n > 0 {
        lemma_collected_values((n - 1) as nat, step);
    }
}

impl StartupError {
    /// An error with a root cause alone.
    pub fn new(message: String) -> (r: Self)
        ensures
            r@ == seq![message@],
    {
        let r = StartupError { message, causes: Vec::new() };
        proof {
            assert(r@ =~= seq![message@]);
        }
        r
    }

    /// An error whose text is a literal.
    pub fn from_text(message: &str) -> (r: Self)
        ensures
            r@ == seq![message@],
    {
        Self::new(message.to_owned())
    }

    /// This error as the cause of `message`.
    pub fn context(self, message: String) -> (r: Self)
        ensures
            r@ == seq![message@] + self@,
    {
        let ghost before = self@;
        let mut causes = self.causes;
        causes.insert(0, self.message);
        let r = StartupError { message, causes };
        proof {
            assert(r@ =~= seq![message@] + before);
        }
        r
    }

    /// The outermost message.
    pub fn summary(&self) -> (r: &str)
        ensures
            r@ == self@[0],
    {
        self.message.as_str()
    }

    /// All messages on one line, outermost first, divided by `: `.
    pub fn chain(&self) -> (r: String)
        ensures
            r@ == joined(self@, ": "@),
    {
        let mut parts: Vec<String> = Vec::new();
        parts.push(self.message.clone());
        let mut i: usize = 0;
        while i < self.causes.len()
            invariant
                i <= self.causes@.len(),
                parts.deep_view() == self@.take(i + 1),
            decreases self.causes@.len() - i,
        {
            let ghost before = parts.deep_view();
            parts.push(self.causes[i].clone());
            i = i + 1;
            proof {
                assert(parts.deep_view() =~= before.push(self.causes@[i - 1]@));
                assert(self@.take(i + 1) =~= self@.take(i as int).push(self.causes@[i - 1]@));
            }
        }
        proof {
            assert(self@.take(self@.len() as int) =~= self@);
        }
        join(&parts, ": ")
    }
}

} // verus!
