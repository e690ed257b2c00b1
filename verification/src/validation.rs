//! Composable validation chain: a combinator tree over a single validator
//! capability, run strictly after authorization and strictly before the
//! business handler.

use vstd::prelude::*;

use crate::access::RequestMetadata;
use crate::errors::ErrorBehavior;
use crate::errors::ServerError;
use crate::request::Request;

verus! {

/// One validation rule. Implemented by the library's users; a rule inspects
/// the raw request, the resolved operation payload, and the caller identity.
pub trait ValidatorSpec<T> {
    fn validate(
        &self,
        request: &Request,
        data: &T,
        metadata: &RequestMetadata,
    ) -> Result<(), ServerError>;
}

/// A validation chain: nothing, one rule, all of a list, or any of a list.
pub enum Validation<V> {
    /// No validation: always passes.
    Pass,
    /// Delegates to one rule.
    Require(V),
    /// Every rule must pass; fails on the first failure.
    RequireAll(Vec<V>),
    /// At least one rule must pass; a total failure aggregates every child
    /// failure.
    RequireAny(Vec<V>),
}

/// The message texts of a list of errors.
pub open spec fn spec_messages(errs: Seq<ServerError>) -> Seq<Seq<char>> {
    errs.map_values(|e: ServerError| e.message@)
}

/// The child failure texts joined for diagnostics, one per line.
pub open spec fn spec_joined_failures(msgs: Seq<Seq<char>>) -> Seq<char>
    decreases msgs.len(),
{
    if msgs.len() == 0 {
        Seq::<char>::empty()
    } else {
        spec_joined_failures(msgs.drop_last()) + "\n- "@ + msgs.last()
    }
}

/// The message of a total `RequireAny` failure.
pub open spec fn spec_any_failure_message(msgs: Seq<Seq<char>>) -> Seq<char> {
    "At least one validation rule must be true. Errors:"@ + spec_joined_failures(msgs)
}

/// Each child message is a contiguous part of the joined text.
proof fn lemma_joined_contains(msgs: Seq<Seq<char>>, i: int)
    requires
        0 <= i < msgs.len(),
    ensures
        exists|a: int, b: int|
            0 <= a <= b <= spec_joined_failures(msgs).len() && spec_joined_failures(msgs).subrange(
                a,
                b,
            ) =~= msgs[i],
    decreases msgs.len(),
{
    let whole = spec_joined_failures(msgs);
    if i == msgs.len() - 1 {
        let a = whole.len() - msgs[i].len();
        assert(whole.subrange(a as int, whole.len() as int) =~= msgs[i]);
    } else {
        lemma_joined_contains(msgs.drop_last(), i);
        let (a, b) = choose|a: int, b: int|
            0 <= a <= b <= spec_joined_failures(msgs.drop_last()).len() && spec_joined_failures(
                msgs.drop_last(),
            ).subrange(a, b) =~= msgs.drop_last()[i];
        assert(whole.subrange(a, b) =~= spec_joined_failures(msgs.drop_last()).subrange(a, b));
        assert(whole.subrange(a, b) =~= msgs[i]);
    }
}

/// A total `RequireAny` failure references every child's failure: each
/// child's message text stands whole inside the aggregate message.
pub proof fn lemma_any_failure_references_all(msgs: Seq<Seq<char>>, i: int)
    requires
        0 <= i < msgs.len(),
    ensures
        exists|a: int, b: int|
            0 <= a <= b <= spec_any_failure_message(msgs).len() && spec_any_failure_message(
                msgs,
            ).subrange(a, b) =~= msgs[i],
{
    lemma_joined_contains(msgs, i);
    let (a, b) = choose|a: int, b: int|
        0 <= a <= b <= spec_joined_failures(msgs).len() && spec_joined_failures(msgs).subrange(
            a,
            b,
        ) =~= msgs[i];
    let h = "At least one validation rule must be true. Errors:"@.len() as int;
    assert(spec_any_failure_message(msgs).subrange(a + h, b + h) =~= spec_joined_failures(
        msgs,
    ).subrange(a, b));
    assert(spec_any_failure_message(msgs).subrange(a + h, b + h) =~= msgs[i]);
}

/// The aggregate error of a `RequireAny` whose rules all failed: a single
/// client-facing error whose message embeds every child failure.
pub fn require_any_failure(errors: &Vec<ServerError>) -> (e: ServerError)
    ensures
        e.behavior is ForwardToClient,
        e.message@ == spec_any_failure_message(spec_messages(errors@)),
{
    let mut message = String::from_str("At least one validation rule must be true. Errors:");
    let mut i: usize = 0;
    proof {
        assert(spec_messages(errors@).subrange(0, 0) =~= Seq::<Seq<char>>::empty());
        assert(message@ =~= spec_any_failure_message(spec_messages(errors@).subrange(0, 0)));
    }
    while i < errors.len()
        invariant
            0 <= i <= errors.len(),
            message@ == spec_any_failure_message(spec_messages(errors@).subrange(0, i as int)),
        decreases errors.len() - i,
    {
        proof {
            assert(spec_messages(errors@).subrange(0, i + 1).drop_last() =~= spec_messages(
                errors@,
            ).subrange(0, i as int));
            assert(spec_messages(errors@)[i as int] == errors@[i as int].message@);
        }
        message.append("\n- ");
        message.append(errors[i].message.as_str());
        i = i + 1;
    }
    proof {
        assert(spec_messages(errors@).subrange(0, errors@.len() as int) =~= spec_messages(
            errors@,
        ));
    }
    ServerError { behavior: ErrorBehavior::ForwardToClient, message, detail: None }
}

impl<V> Validation<V> {
    /// Runs the chain. `Pass` always passes; `RequireAll` fails on its first
    /// failing rule; `RequireAny` passes on its first passing rule and, when
    /// every rule fails, returns one aggregate error embedding each child
    /// failure.
    pub fn validate<T>(
        &self,
        request: &Request,
        data: &T,
        metadata: &RequestMetadata,
    ) -> (r: Result<(), ServerError>) where V: ValidatorSpec<T>
        ensures
            self is Pass ==> r is Ok,
            r matches Err(_) ==> !(self is Pass),
            self matches Validation::RequireAll(vs) && vs@.len() == 0 ==> r is Ok,
            self matches Validation::RequireAny(vs) ==> (r matches Err(e) ==> {
                &&& e.behavior is ForwardToClient
                &&& exists|msgs: Seq<Seq<char>>|
                    msgs.len() == vs@.len() && e.message@ == spec_any_failure_message(msgs)
            }),
            self matches Validation::RequireAny(vs) && vs@.len() == 0 ==> r is Err,
    {
        match self {
            Validation::Pass => Ok(()),
            Validation::Require(v) => v.validate(request, data, metadata),
            Validation::RequireAll(vs) => {
                let mut i: usize = 0;
                #[verifier::loop_isolation(false)]
                while i < vs.len()
                    invariant
                        0 <= i <= vs.len(),
                    decreases vs.len() - i,
                {
                    match vs[i].validate(request, data, metadata) {
                        Ok(()) => {}
                        Err(e) => {
                            return Err(e);
                        }
                    }
                    i = i + 1;
                }
                Ok(())
            }
            Validation::RequireAny(vs) => {
                let mut errors: Vec<ServerError> = Vec::new();
                let mut i: usize = 0;
                #[verifier::loop_isolation(false)]
                while i < vs.len()
                    invariant
                        0 <= i <= vs.len(),
                        errors@.len() == i,
                    decreases vs.len() - i,
                {
                    match vs[i].validate(request, data, metadata) {
                        Ok(()) => {
                            return Ok(());
                        }
                        Err(e) => {
                            errors.push(e);
                        }
                    }
                    i = i + 1;
                }
                let e = require_any_failure(&errors);
                proof {
                    assert(spec_messages(errors@).len() == vs@.len());
                }
                Err(e)
            }
        }
    }
}

} // verus!
