use vstd::prelude::*;
use vstd::string::*;

verus! {

/// How a callback is invoked: with an argument tuple, with one argument, or
/// with none.
pub enum CBHandleCallType<O> {
    Full(O),
    OneArg(O),
    NoArgs,
}

/// A callback scheduled on the loop, with the context it runs in and its
/// cancellation flag. `O` is the interpreter's object type.
pub struct CBHandle<O> {
    pub cbtype: CBHandleCallType<O>,
    pub callback: O,
    pub context: O,
    pub cancelled: bool,
}

/// The text that prefixes the report of a callback that raised.
pub open spec fn callback_error_prefix() -> Seq<char> {
    "Exception in callback "@
}

impl<O> CBHandle<O> {
    /// A handle that calls `callback(*args)` in `context`.
    pub fn new(callback: O, args: O, context: O) -> (h: Self)
        ensures
            h.cbtype == CBHandleCallType::Full(args),
            h.callback == callback,
            h.context == context,
            !h.cancelled,
    {
        CBHandle { cbtype: CBHandleCallType::Full(args), callback, context, cancelled: false }
    }

    /// A handle that calls `callback()` in `context`.
    pub fn new0(callback: O, context: O) -> (h: Self)
        ensures
            h.cbtype == CBHandleCallType::<O>::NoArgs,
            h.callback == callback,
            h.context == context,
            !h.cancelled,
    {
        CBHandle { cbtype: CBHandleCallType::NoArgs, callback, context, cancelled: false }
    }

    /// A handle that calls `callback(arg)` in `context`.
    pub fn new1(callback: O, arg: O, context: O) -> (h: Self)
        ensures
            h.cbtype == CBHandleCallType::OneArg(arg),
            h.callback == callback,
            h.context == context,
            !h.cancelled,
    {
        CBHandle { cbtype: CBHandleCallType::OneArg(arg), callback, context, cancelled: false }
    }

    /// Marks the handle cancelled; nothing else changes.
    pub fn cancel(&mut self)
        ensures
            final(self).cancelled,
            final(self).cbtype == old(self).cbtype,
            final(self).callback == old(self).callback,
            final(self).context == old(self).context,
    {
        self.cancelled = true;
    }

    pub fn cancelled(&self) -> (r: bool)
        ensures
            r == self.cancelled,
    {
        self.cancelled
    }

    /// The report of one run of the callback, given how the call ended:
    /// nothing when it returned, otherwise the raised error together with the
    /// message `Exception in callback <repr>`.
    pub fn run<E>(&self, outcome: Result<(), E>, callback_repr: &str) -> (r: Option<(E, String)>)
        ensures
            match outcome {
                Ok(()) => r is None,
                Err(e) => r matches Some(p) && p.0 == e && p.1@ == callback_error_prefix()
                    + callback_repr@,
            },
    {
        match outcome {
            Ok(()) => None,
            Err(err) => {
                let mut msg = String::from_str("Exception in callback ");
                msg.append(callback_repr);
                Some((err, msg))
            },
        }
    }
}

/// A handle returned for a delayed callback: the callback handle and the loop
/// time, in microseconds, at which it is due.
pub struct TimerHandle<K> {
    pub handle: K,
    pub when: u128,
}

impl<K> TimerHandle<K> {
    pub fn new(handle: K, when: u128) -> (t: Self)
        ensures
            t.handle == handle,
            t.when == when,
    {
        TimerHandle { handle, when }
    }

    /// The due time in microseconds of loop time.
    pub fn when_micros(&self) -> (r: u128)
        ensures
            r == self.when,
    {
        self.when
    }
}

} // verus!
