//! A retry-capable node: a prepare/execute/post-process pipeline where the
//! execute step is retried a bounded number of times, with a delay between
//! attempts and an optional fallback when every attempt fails.

use vstd::prelude::*;

use crate::node::Node;
use crate::store::Store;
use crate::value::{SpecValue, Value};

verus! {

/// Performs the wait between two attempts of a retry-capable node.
/// Implementations may sleep, tick a mock clock, or do nothing.
pub trait Delay {
    /// Waits for `millis` milliseconds.
    fn delay(&self, millis: u64);
}

/// A delay that does not wait at all.
#[derive(Clone)]
pub struct NoDelay;

impl Delay for NoDelay {
    fn delay(&self, _millis: u64) {
    }
}

/// The value handed to the post-process step when every attempt failed and
/// no fallback exists: an object carrying the last error and the number of
/// attempts made.
pub open spec fn spec_error_marker(retries: int, last_error: Seq<char>) -> SpecValue {
    SpecValue::Obj(
        seq![
            ("error"@, SpecValue::Str(last_error)),
            ("retries"@, SpecValue::Int(retries)),
        ],
    )
}

/// Builds the error marker value.
fn error_marker(retries: usize, last_error: String) -> (r: Value)
    requires
        retries <= 0x7fff_ffff_ffff_ffff,
    ensures
        r@ == spec_error_marker(retries as int, last_error@),
{
    let mut pairs: Vec<(String, Value)> = Vec::new();
    pairs.push(("error".to_owned(), Value::Str(last_error)));
    pairs.push(("retries".to_owned(), Value::Int(retries as i64)));
    proof {
        crate::value::lemma_deep_pairs(pairs@);
        assert(Value::deep_pairs(pairs@)
            =~= seq![
                ("error"@, pairs@[0].1@),
                ("retries"@, SpecValue::Int(retries as int)),
            ]);
    }
    Value::Obj(pairs)
}

/// A node built from a three-phase pipeline:
///
/// - `prep` turns the state into an intermediate value and cannot fail;
/// - `execute` is the fallible step, attempted up to `max_retries` times,
///   with `delayer.delay(wait_millis)` between attempts (skipped after the
///   last attempt and when `wait_millis` is zero);
/// - `post_process` always runs exactly once, on the original state, the
///   prepared value, and whichever value the attempts produced: the success
///   value, the fallback's replacement value, or the error marker.
pub struct RetryNode<P, E, Po, FB, D> {
    /// Pure transform from state to an intermediate value.
    pub prep: P,
    /// The fallible step; retried.
    pub execute: E,
    /// Consumes the state plus the prepared and executed values.
    pub post_process: Po,
    /// How many attempts of `execute` are allowed; at least one.
    pub max_retries: usize,
    /// The wait between attempts, in milliseconds.
    pub wait_millis: u64,
    /// Produces a replacement value when every attempt fails.
    pub fallback: Option<FB>,
    /// Performs the wait between attempts.
    pub delayer: D,
}

impl<P, E, Po, FB, D> RetryNode<P, E, Po, FB, D> where
    P: Fn(&Store) -> Value,
    E: Fn(&Store, &Value) -> Result<Value, String>,
    Po: Fn(Store, &Value, &Value) -> Store,
    FB: Fn(&Store, &Value, &String) -> Value,
    D: Delay,
 {
    /// The attempts one call may make: `errs` lists the failures in order;
    /// either a later attempt succeeded with `exec_val`, or every allowed
    /// attempt failed and `exec_val` is the fallback's replacement value or
    /// the error marker.
    pub open spec fn attempts_ok(
        self,
        input: Store,
        prep_val: Value,
        errs: Seq<String>,
        exec_val: Value,
    ) -> bool {
        &&& forall|j: int|
            0 <= j < errs.len() ==> call_ensures(
                self.execute,
                (&input, &prep_val),
                Result::<Value, String>::Err(#[trigger] errs[j]),
            )
        &&& if errs.len() < self.max_retries {
            call_ensures(self.execute, (&input, &prep_val), Result::<Value, String>::Ok(exec_val))
        } else {
            &&& errs.len() == self.max_retries
            &&& match self.fallback {
                Some(fb) => call_ensures(fb, (&input, &prep_val, &errs.last()), exec_val),
                None => exec_val@ == spec_error_marker(
                    self.max_retries as int,
                    errs.last()@,
                ),
            }
        }
    }

    /// What the node needs of its pipeline: at least one attempt, and each
    /// phase accepts what it will be handed.
    pub open spec fn retry_pre(self, input: Store) -> bool {
        &&& 1 <= self.max_retries <= 0x7fff_ffff_ffff_ffff
        &&& call_requires(self.prep, (&input,))
        &&& forall|v: Value|
            #[trigger] call_ensures(self.prep, (&input,), v)
                ==> call_requires(self.execute, (&input, &v))
        &&& forall|v: Value, e: Value|
            #[trigger] call_requires(self.post_process, (input, &v, &e))
        &&& match self.fallback {
            Some(fb) => forall|v: Value, e: String|
                #[trigger] call_requires(fb, (&input, &v, &e)),
            None => true,
        }
    }

    /// What one call may produce: a prepared value, a legal series of
    /// attempts, and the post-processed result.
    pub open spec fn retry_post(self, input: Store, output: Store) -> bool {
        exists|prep_val: Value, errs: Seq<String>, exec_val: Value|
            {
                &&& call_ensures(self.prep, (&input,), prep_val)
                &&& #[trigger] self.attempts_ok(input, prep_val, errs, exec_val)
                &&& call_ensures(self.post_process, (input, &prep_val, &exec_val), output)
            }
    }

    /// Runs the pipeline once, retrying the execute step.
    pub fn call_retry(&self, input: Store) -> (output: Store)
        requires
            self.retry_pre(input),
        ensures
            self.retry_post(input, output),
    {
        let prep_val = (self.prep)(&input);
        let mut result: Option<Value> = None;
        let mut last_err: Option<String> = None;
        let ghost mut errs: Seq<String> = Seq::empty();
        let mut attempt: usize = 0;
        loop
            invariant_except_break
                result is None,
            invariant
                self.retry_pre(input),
                call_ensures(self.prep, (&input,), prep_val),
                attempt == errs.len(),
                attempt <= self.max_retries,
                forall|j: int|
                    0 <= j < errs.len() ==> call_ensures(
                        self.execute,
                        (&input, &prep_val),
                        Result::<Value, String>::Err(#[trigger] errs[j]),
                    ),
                match last_err {
                    Some(e) => errs.len() > 0 && e == errs.last(),
                    None => errs.len() == 0,
                },
                match result {
                    Some(v) => errs.len() < self.max_retries && call_ensures(
                        self.execute,
                        (&input, &prep_val),
                        Result::<Value, String>::Ok(v),
                    ),
                    None => true,
                },
            ensures
                attempt == errs.len(),
                forall|j: int|
                    0 <= j < errs.len() ==> call_ensures(
                        self.execute,
                        (&input, &prep_val),
                        Result::<Value, String>::Err(#[trigger] errs[j]),
                    ),
                match result {
                    Some(v) => errs.len() < self.max_retries && call_ensures(
                        self.execute,
                        (&input, &prep_val),
                        Result::<Value, String>::Ok(v),
                    ),
                    None => errs.len() == self.max_retries,
                },
                match last_err {
                    Some(e) => errs.len() > 0 && e == errs.last(),
                    None => errs.len() == 0,
                },
            decreases self.max_retries - attempt,
        {
            if attempt >= self.max_retries {
                break;
            }
            match (self.execute)(&input, &prep_val) {
                Ok(v) => {
                    result = Some(v);
                    break;
                },
                Err(e) => {
                    proof {
                        errs = errs.push(e);
                    }
                    last_err = Some(e);
                    attempt += 1;
                    if attempt < self.max_retries && self.wait_millis > 0 {
                        self.delayer.delay(self.wait_millis);
                    }
                },
            }
        }
        let exec_val: Value = match result {
            Some(v) => v,
            None => {
                let err_string: String = match last_err {
                    Some(e) => e,
                    None => String::new(),
                };
                match &self.fallback {
                    Some(fb) => fb(&input, &prep_val, &err_string),
                    None => error_marker(self.max_retries, err_string),
                }
            },
        };
        proof {
            assert(self.attempts_ok(input, prep_val, errs, exec_val));
        }
        (self.post_process)(input, &prep_val, &exec_val)
    }
}

/// The law of exhaustion: when the execute step can only fail, a call of
/// the retry-capable node makes every allowed attempt, and the value the
/// post-process step receives is the fallback's replacement value, or the
/// error marker carrying the attempt count and the last error.
pub proof fn lemma_retry_exhaustion<P, E, Po, FB, D>(
    node: RetryNode<P, E, Po, FB, D>,
    input: Store,
    output: Store,
) where
    P: Fn(&Store) -> Value,
    E: Fn(&Store, &Value) -> Result<Value, String>,
    Po: Fn(Store, &Value, &Value) -> Store,
    FB: Fn(&Store, &Value, &String) -> Value,
    D: Delay,

    requires
        node.retry_post(input, output),
        forall|p: Value, v: Value|
            !(#[trigger] call_ensures(
                node.execute,
                (&input, &p),
                Result::<Value, String>::Ok(v),
            )),
    ensures
        exists|prep_val: Value, errs: Seq<String>, exec_val: Value|
            {
                &&& call_ensures(node.prep, (&input,), prep_val)
                &&& #[trigger] node.attempts_ok(input, prep_val, errs, exec_val)
                &&& errs.len() == node.max_retries
                &&& match node.fallback {
                    Some(fb) => call_ensures(fb, (&input, &prep_val, &errs.last()), exec_val),
                    None => exec_val@ == spec_error_marker(
                        node.max_retries as int,
                        errs.last()@,
                    ),
                }
                &&& call_ensures(node.post_process, (input, &prep_val, &exec_val), output)
            },
{
    let (prep_val, errs, exec_val) = choose|prep_val: Value, errs: Seq<String>, exec_val: Value|
        {
            &&& call_ensures(node.prep, (&input,), prep_val)
            &&& #[trigger] node.attempts_ok(input, prep_val, errs, exec_val)
            &&& call_ensures(node.post_process, (input, &prep_val, &exec_val), output)
        };
    if errs.len() < node.max_retries {
        assert(!call_ensures(node.execute, (&input, &prep_val), Result::<Value, String>::Ok(exec_val)));
    }
}

/// Builds a retry-capable node from the three pipeline phases, the retry
/// policy, an optional fallback, and the delay implementation.
pub fn create_retry_node<P, E, Po, FB, D>(
    prep: P,
    execute: E,
    post_process: Po,
    max_retries: usize,
    wait_millis: u64,
    fallback: Option<FB>,
    delayer: D,
) -> (n: RetryNode<P, E, Po, FB, D>) where
    P: Fn(&Store) -> Value,
    E: Fn(&Store, &Value) -> Result<Value, String>,
    Po: Fn(Store, &Value, &Value) -> Store,
    FB: Fn(&Store, &Value, &String) -> Value,
    D: Delay,

    ensures
        n.prep == prep,
        n.execute == execute,
        n.post_process == post_process,
        n.max_retries == max_retries,
        n.wait_millis == wait_millis,
        n.fallback == fallback,
        n.delayer == delayer,
{
    RetryNode { prep, execute, post_process, max_retries, wait_millis, fallback, delayer }
}

impl<P, E, Po, FB, D> Node<Store, Store> for RetryNode<P, E, Po, FB, D> where
    P: Fn(&Store) -> Value,
    E: Fn(&Store, &Value) -> Result<Value, String>,
    Po: Fn(Store, &Value, &Value) -> Store,
    FB: Fn(&Store, &Value, &String) -> Value,
    D: Delay,
 {
    open spec fn pre(&self, input: Store) -> bool {
        self.retry_pre(input)
    }

    open spec fn post(&self, input: Store, output: Store) -> bool {
        self.retry_post(input, output)
    }

    fn call(&self, input: Store) -> (output: Store) {
        self.call_retry(input)
    }
}

} // verus!
