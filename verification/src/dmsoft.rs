//! The binding: steps of an invocation, marshalling of arguments, reading of replies.
//!
//! An invocation is driven from outside. [`Dmsoft::Invoke`] says what has to happen first:
//! a lookup of the method name, the call itself, or nothing because the name is known not to
//! exist. After a lookup, [`Dmsoft::proceed`] takes the answer and says what follows; after
//! the call, [`Dmsoft::complete`] turns what came back into the result of the invocation.
//!
//! The operations of the automation object start an invocation each. What an operation
//! returns says how the reply to it is read: [`ReturnsLong`], [`ReturnsText`] or
//! [`ReturnsLongAt`].

use crate::cache::{
    answered_id, lemma_id_stays, lemma_not_found_stays, spec_learn, spec_learn_all, spec_resolve,
    DispIdCache, Resolution, DISPID_UNKNOWN,
};
use crate::variant::{values, Value, Variant};
use vstd::prelude::*;

verus! {

/// The locale that every lookup and every call is made under: the user's default.
pub const LOCALE_USER_DEFAULT: u32 = 0x0400;

/// The flag of a call that invokes a method, as opposed to reading or writing a property.
pub const DISPATCH_METHOD: u16 = 1;

/// Why an invocation failed.
#[derive(Debug, Clone, Copy, PartialEq, Eq, Structural)]
pub enum Error {
    /// The call was made and the automation object reported this failure status.
    WinError(i32),
    /// The automation object does not expose the method; no call was made.
    IdError,
}

/// A call, ready to be made: the dispatch id of the method and the argument list, last
/// declared parameter first.
#[derive(Debug, PartialEq, Eq)]
pub struct Call {
    /// The dispatch id of the method.
    pub id: i32,
    /// The locale that the call is made under.
    pub locale: u32,
    /// The kind of the call.
    pub flags: u16,
    /// The arguments, last declared parameter first.
    pub args: Vec<Variant>,
}

/// What a [`Call`] holds, as a mathematical value.
pub struct CallView {
    pub id: i32,
    pub locale: u32,
    pub flags: u16,
    pub args: Seq<Value>,
}

impl View for Call {
    type V = CallView;

    open spec fn view(&self) -> CallView {
        CallView { id: self.id, locale: self.locale, flags: self.flags, args: values(self.args@) }
    }
}

impl Call {
    /// The number of arguments, as a call descriptor counts them: `None` if there are more
    /// than it can count.
    pub fn count(&self) -> (n: Option<u32>)
        ensures
            n == (if self.args@.len() <= u32::MAX {
                Some(self.args@.len() as u32)
            } else {
                None
            }),
    {
        let len = self.args.len();
        if len <= u32::MAX as usize {
            Some(len as u32)
        } else {
            None
        }
    }
}

/// What has to happen next for an invocation.
#[derive(Debug, PartialEq, Eq)]
pub enum Step {
    /// The method name was never resolved. Ask the automation object for the id of `name`
    /// and go on with [`Dmsoft::proceed`].
    Lookup { name: String, args: Vec<Variant> },
    /// Make this call and hand what comes back to [`Dmsoft::complete`].
    Call(Call),
    /// The invocation is over without a call.
    Fail(Error),
}

/// What a [`Step`] holds, as a mathematical value.
pub enum StepView {
    Lookup { name: Seq<char>, args: Seq<Value> },
    Call(CallView),
    Fail(Error),
}

impl View for Step {
    type V = StepView;

    open spec fn view(&self) -> StepView {
        match self {
            Step::Lookup { name, args } => StepView::Lookup { name: name@, args: values(args@) },
            Step::Call(call) => StepView::Call(call@),
            Step::Fail(error) => StepView::Fail(*error),
        }
    }
}

/// What a successful call left behind: the value it returned, and the argument list with
/// the output slots as the callee filled them.
#[derive(Debug, PartialEq, Eq)]
pub struct Reply {
    /// The value that the call returned.
    pub result: Variant,
    /// The arguments after the call, last declared parameter first.
    pub args: Vec<Variant>,
}

/// What a [`Reply`] holds, as a mathematical value.
pub struct ReplyView {
    pub result: Value,
    pub args: Seq<Value>,
}

impl View for Reply {
    type V = ReplyView;

    open spec fn view(&self) -> ReplyView {
        ReplyView { result: self.result@, args: values(self.args@) }
    }
}

/// The first step of invoking `name` with `args`, given the content of the cache: a lookup
/// for a name that was never resolved, failure for a name that is known not to exist, and
/// otherwise the call under the cached id.
pub open spec fn spec_invoke(
    cache: Map<Seq<char>, i32>,
    name: Seq<char>,
    args: Seq<Value>,
) -> StepView {
    match spec_resolve(cache, name) {
        None => StepView::Lookup { name, args },
        Some(Resolution::NotFound) => StepView::Fail(Error::IdError),
        Some(Resolution::Id(id)) => StepView::Call(
            CallView { id, locale: LOCALE_USER_DEFAULT, flags: DISPATCH_METHOD, args },
        ),
    }
}

/// The integer in an output slot. A slot that the callee left empty reads as zero.
pub open spec fn spec_slot(arg: Value) -> Option<i32> {
    match arg {
        Value::Ref(held) => match *held {
            Value::Long(n) => Some(n),
            Value::Empty => Some(0),
            _ => None,
        },
        _ => None,
    }
}

/// The status that a call returned, together with the coordinates that it wrote to its two
/// output slots: `(status, x, y)`. The slot of `y`, the last declared parameter, is first in
/// the argument list, the slot of `x` second.
pub open spec fn spec_long_at(reply: ReplyView) -> Option<(i32, i32, i32)> {
    if reply.args.len() >= 2 && reply.result.long() is Some && spec_slot(reply.args[1]) is Some
        && spec_slot(reply.args[0]) is Some {
        Some(
            (
                reply.result.long().unwrap(),
                spec_slot(reply.args[1]).unwrap(),
                spec_slot(reply.args[0]).unwrap(),
            ),
        )
    } else {
        None
    }
}

/// The state of one binding to the automation object: what it has learned about the
/// object's method names.
#[derive(Debug)]
pub struct Dmsoft {
    cache: DispIdCache,
}

impl View for Dmsoft {
    type V = Map<Seq<char>, i32>;

    /// The dispatch id of every method name that was looked up.
    closed spec fn view(&self) -> Map<Seq<char>, i32> {
        self.cache@
    }
}

#[allow(non_snake_case)]
impl Dmsoft {
    /// A binding that has resolved no method name yet.
    pub fn new() -> (dm: Self)
        ensures
            dm@ == Map::<Seq<char>, i32>::empty(),
    {
        Dmsoft { cache: DispIdCache::new() }
    }

    /// What `name` resolves to, as far as the binding knows: `None` if the automation object
    /// was never asked for it.
    pub fn resolve(&self, name: &str) -> (found: Option<Resolution>)
        ensures
            found == spec_resolve(self@, name@),
    {
        self.cache.resolve(name)
    }

    /// Starts the invocation of the method `name`. `args` holds the arguments, last declared
    /// parameter first.
    pub fn Invoke(&self, name: &str, args: Vec<Variant>) -> (step: Step)
        ensures
            step@ == spec_invoke(self@, name@, values(args@)),
    {
        match self.cache.resolve(name) {
            None => Step::Lookup { name: name.to_owned(), args },
            Some(Resolution::NotFound) => Step::Fail(Error::IdError),
            Some(Resolution::Id(id)) => Step::Call(
                Call { id, locale: LOCALE_USER_DEFAULT, flags: DISPATCH_METHOD, args },
            ),
        }
    }

    /// Goes on with an invocation after the lookup that [`Step::Lookup`] asked for. `answer`
    /// is what the automation object answered for `name`: `Some` id, or `None` if the lookup
    /// failed. The binding remembers the first answer for a name; the step that follows is
    /// never another lookup.
    pub fn proceed(&mut self, name: &str, args: Vec<Variant>, answer: Option<i32>) -> (step: Step)
        ensures
            final(self)@ == spec_learn(old(self)@, name@, answer),
            step@ == spec_invoke(final(self)@, name@, values(args@)),
            !(step is Lookup),
    {
        match self.cache.learn(name, answer) {
            Resolution::NotFound => Step::Fail(Error::IdError),
            Resolution::Id(id) => Step::Call(
                Call { id, locale: LOCALE_USER_DEFAULT, flags: DISPATCH_METHOD, args },
            ),
        }
    }

    /// Ends an invocation after the call that [`Step::Call`] asked for. `outcome` is the
    /// reply of a call that succeeded, or the failure status that the automation object
    /// reported.
    pub fn complete(outcome: Result<Reply, i32>) -> (result: Result<Reply, Error>)
        ensures
            match outcome {
                Ok(reply) => result == Ok::<Reply, Error>(reply),
                Err(status) => result == Err::<Reply, Error>(Error::WinError(status)),
            },
    {
        match outcome {
            Ok(reply) => Ok(reply),
            Err(status) => Err(Error::WinError(status)),
        }
    }

    /// A string argument.
    pub fn bstrVal(var: &str) -> (arg: Variant)
        ensures
            arg@ == Value::Str(var@),
    {
        Variant::Str(var.to_owned())
    }

    /// An integer argument.
    pub fn longVar(var: i32) -> (arg: Variant)
        ensures
            arg == Variant::Long(var),
    {
        Variant::Long(var)
    }

    /// An output slot as an argument. The slot starts out holding `var`; the callee writes
    /// to it during the call.
    pub fn pvarVal(var: Variant) -> (arg: Variant)
        ensures
            arg == Variant::Ref(Box::new(var)),
            arg@ == Value::Ref(Box::new(var@)),
    {
        Variant::Ref(Box::new(var))
    }

    /// A float argument, given as the bit pattern of its IEEE 754 encoding.
    pub fn doubleVar(var: u64) -> (arg: Variant)
        ensures
            arg == Variant::Double(var),
    {
        Variant::Double(var)
    }
}

/// An invocation of a method that returns an integer.
#[derive(Debug, PartialEq, Eq)]
pub struct ReturnsLong(pub Step);

/// An invocation of a method that returns a string.
#[derive(Debug, PartialEq, Eq)]
pub struct ReturnsText(pub Step);

/// An invocation of a method that returns an integer and writes a position to two output
/// slots, the last two parameters that it declares.
#[derive(Debug, PartialEq, Eq)]
pub struct ReturnsLongAt(pub Step);

impl View for ReturnsLong {
    type V = StepView;

    open spec fn view(&self) -> StepView {
        self.0@
    }
}

impl View for ReturnsText {
    type V = StepView;

    open spec fn view(&self) -> StepView {
        self.0@
    }
}

impl View for ReturnsLongAt {
    type V = StepView;

    open spec fn view(&self) -> StepView {
        self.0@
    }
}

impl ReturnsLong {
    /// The integer that the call returned; `None` if it returned a value of another kind.
    pub fn read(reply: &Reply) -> (n: Option<i32>)
        ensures
            n == reply@.result.long(),
    {
        reply.result.as_long()
    }
}

impl ReturnsText {
    /// The string that the call returned; `None` if it returned a value of another kind.
    pub fn read(reply: Reply) -> (s: Option<String>)
        ensures
            match reply@.result.text() {
                Some(text) => s matches Some(r) && r@ == text,
                None => s is None,
            },
    {
        match reply.result {
            Variant::Str(s) => Some(s),
            _ => None,
        }
    }
}

impl ReturnsLongAt {
    /// Stores the position that the call wrote in `x` and `y`, and returns the integer that
    /// it returned; a slot that the callee left empty gives zero. Returns `None`, and leaves
    /// `x` and `y` as they are, if the reply is not of that shape: if the call returned no
    /// integer, or one of the first two arguments is no output slot, or a slot holds a value
    /// of another kind.
    pub fn read(reply: &Reply, x: &mut i32, y: &mut i32) -> (n: Option<i32>)
        ensures
            match spec_long_at(reply@) {
                Some((status, at_x, at_y)) => n == Some(status) && *final(x) == at_x && *final(y)
                    == at_y,
                None => n is None && *final(x) == *old(x) && *final(y) == *old(y),
            },
    {
        if reply.args.len() < 2 {
            return None;
        }
        let status = reply.result.as_long();
        let at_x = ReturnsLongAt::slot(&reply.args[1]);
        let at_y = ReturnsLongAt::slot(&reply.args[0]);
        match (status, at_x, at_y) {
            (Some(status), Some(at_x), Some(at_y)) => {
                *x = at_x;
                *y = at_y;
                Some(status)
            },
            _ => None,
        }
    }

    /// The integer in an output slot.
    fn slot(arg: &Variant) -> (n: Option<i32>)
        ensures
            n == spec_slot(arg@),
    {
        match arg.target() {
            Some(held) => match held {
                Variant::Long(n) => Some(*n),
                Variant::Empty => Some(0),
                _ => None,
            },
            None => None,
        }
    }
}

/// What the callee wrote to the output slots of a call is what the caller reads from the
/// reply, whatever else the argument list holds.
pub proof fn lemma_slots_read_back(status: i32, x: i32, y: i32, rest: Seq<Value>)
    ensures
        spec_long_at(
            ReplyView {
                result: Value::Long(status),
                args: seq![
                    Value::Ref(Box::new(Value::Long(y))),
                    Value::Ref(Box::new(Value::Long(x))),
                ] + rest,
            },
        ) == Some((status, x, y)),
{
}

/// A method that the automation object does not expose is never called. Once the lookup
/// of its name came back negative, every invocation of it fails with `IdError`, without a
/// second lookup and without a call, whatever the binding has learned in between.
pub proof fn lemma_unknown_method_is_never_called(
    cache: Map<Seq<char>, i32>,
    name: Seq<char>,
    answer: Option<i32>,
    later: Seq<(Seq<char>, Option<i32>)>,
    args: Seq<Value>,
)
    requires
        !cache.contains_key(name),
        answered_id(answer) == DISPID_UNKNOWN,
    ensures
        spec_invoke(spec_learn_all(spec_learn(cache, name, answer), later), name, args)
            == StepView::Fail(Error::IdError),
{
    lemma_not_found_stays(cache, name, answer, later);
}

/// A method that the automation object exposes is called under the id of its first lookup.
/// Every later invocation goes straight to the call, with the arguments it was given,
/// whatever the binding has learned in between.
pub proof fn lemma_known_method_is_called_under_its_id(
    cache: Map<Seq<char>, i32>,
    name: Seq<char>,
    id: i32,
    later: Seq<(Seq<char>, Option<i32>)>,
    args: Seq<Value>,
)
    requires
        !cache.contains_key(name),
        id != DISPID_UNKNOWN,
    ensures
        spec_invoke(spec_learn_all(spec_learn(cache, name, Some(id)), later), name, args)
            == StepView::Call(
            CallView { id, locale: LOCALE_USER_DEFAULT, flags: DISPATCH_METHOD, args },
        ),
{
    lemma_id_stays(cache, name, id, later);
}

} // verus!
