//! The life of a predictor.
//!
//! A predictor owns one native handle. This module decides what may be
//! done with it and when; the calls themselves are made by whoever holds
//! the real handle, who reports back what the engine answered:
//!
//! 1. [`Predictor::new`] applies a configuration. The predictor is then
//!    being configured: the calls to replay are in
//!    [`Predictor::config_calls`].
//! 2. [`Predictor::created`] takes the handle that the engine made from the
//!    configuration handle, and the names of its tensors. The predictor is
//!    ready.
//! 3. A ready predictor hands out tensor views, judges the outcome of a
//!    run, and can be cloned.
//! 4. [`Predictor::destroy`] ends it, and says which handle to release.
//!
//! Calls on one handle are not synchronised here. To run from several
//! threads, clone the predictor and give each thread its own.

use vstd::prelude::*;
use vstd::utf8::encode_utf8;
use crate::common::{flag_is_set, from_pd_bool, PD_Bool};
use crate::config::native::{call_views, Call, ConfigCall, NativeConfig};
use crate::config::{Config, ConfigError, SetConfig};
use crate::tensor::{Side, Tensor};
use crate::utils::{c_str_bytes, from_c_str, native_text, to_c_str};

verus! {

/// Where a predictor stands in its life.
#[derive(Debug, Clone, Copy, PartialEq, Eq, Structural)]
pub enum State {
    /// Construction has not started. This is where [`Predictor::new`]
    /// starts from; no predictor value is in this state.
    Unconfigured,
    /// The configuration handle is being written; no predictor handle
    /// exists yet.
    Configuring,
    /// The engine has made the predictor handle from the configuration
    /// handle, which is thereby given up.
    Ready,
    /// The predictor handle has been released. Nothing can follow.
    Destroyed,
}

/// A run that the engine reports as failed.
#[derive(Debug, Clone, Copy, PartialEq, Eq, Structural)]
pub enum RunError {
    /// The engine returned its false flag.
    Failed,
}

/// The predictor.
#[derive(Debug)]
pub struct Predictor {
    state: State,
    config: NativeConfig,
    ptr: usize,
    inputs: Vec<String>,
    outputs: Vec<String>,
}

/// The texts of a list of strings, one for one.
pub open spec fn texts(names: Seq<String>) -> Seq<Seq<char>> {
    Seq::new(names.len(), |i: int| names[i]@)
}

/// Whether two byte strings are the same.
fn same_bytes(a: &[u8], b: &[u8]) -> (same: bool)
    ensures
        same == (a@ == b@),
{
    if a.len() != b.len() {
        return false;
    }
    let mut i: usize = 0;
    while i < a.len()
        invariant
            0 <= i <= a.len(),
            a@.len() == b@.len(),
            forall|j: int| 0 <= j < i ==> a@[j] == b@[j],
        decreases a.len() - i,
    {
        if a[i] != b[i] {
            return false;
        }
        i = i + 1;
    }
    assert(a@ =~= b@);
    true
}

/// Whether `name`, as the engine reads it, is the encoding of one of
/// `names`.
pub open spec fn holds_name(names: Seq<Seq<char>>, name: Seq<u8>) -> bool {
    exists|i: int| 0 <= i < names.len() && encode_utf8(#[trigger] names[i]) == name
}

/// Whether the engine, reading `key`, finds it among `names`.
fn find_name(names: &Vec<String>, key: &Vec<u8>) -> (found: bool)
    ensures
        found == holds_name(texts(names@), key@),
{
    let mut i: usize = 0;
    while i < names.len()
        invariant
            0 <= i <= names.len(),
            forall|j: int| 0 <= j < i ==> encode_utf8(#[trigger] texts(names@)[j]) != key@,
        decreases names.len() - i,
    {
        if same_bytes(names[i].as_str().as_bytes(), key.as_slice()) {
            assert(encode_utf8(texts(names@)[i as int]) == key@);
            return true;
        }
        i = i + 1;
    }
    false
}

/// A copy of a list of names.
fn copy_names(names: &Vec<String>) -> (copy: Vec<String>)
    ensures
        copy@ == names@,
{
    let mut copy: Vec<String> = Vec::new();
    let mut i: usize = 0;
    while i < names.len()
        invariant
            0 <= i <= names.len(),
            copy@ == names@.take(i as int),
        decreases names.len() - i,
    {
        copy.push(names[i].clone());
        i = i + 1;
        assert(copy@ =~= names@.take(i as int));
    }
    assert(names@.take(i as int) =~= names@);
    copy
}

impl Predictor {
    /// Where the predictor stands in its life.
    pub closed spec fn spec_state(&self) -> State {
        self.state
    }

    /// The calls recorded on the configuration handle of a predictor that
    /// is being configured.
    pub closed spec fn config(&self) -> Seq<Call> {
        self.config@
    }

    /// The native handle of a ready predictor.
    pub closed spec fn handle(&self) -> usize {
        self.ptr
    }

    /// The names that the engine declares for one side of a ready
    /// predictor.
    pub closed spec fn names(&self, side: Side) -> Seq<Seq<char>> {
        match side {
            Side::Input => texts(self.inputs@),
            Side::Output => texts(self.outputs@),
        }
    }

    /// Whether the engine, reading `name`, finds it among the names
    /// declared for `side`.
    pub open spec fn declares(&self, side: Side, name: Seq<u8>) -> bool {
        holds_name(self.names(side), name)
    }

    /// Whether a tensor view can be used: the predictor is ready, the view
    /// is bound to it, and it names a tensor that the predictor declares.
    pub open spec fn serves(&self, tensor: &Tensor) -> bool {
        &&& self.spec_state() == State::Ready
        &&& tensor.predictor == self.handle()
        &&& self.declares(tensor.side, tensor.slot().name)
    }

    /// `tensor` is the view that looking `name` up on `side` gives.
    pub open spec fn looks_up(&self, side: Side, name: Seq<char>, tensor: &Tensor) -> bool {
        &&& tensor.predictor == self.handle()
        &&& tensor.side == side
        &&& tensor.name@ == c_str_bytes(name)
    }

    /// `self` is a clone of `source`: ready, with a handle of its own and
    /// the names of its source.
    pub open spec fn clone_of(&self, source: &Predictor) -> bool {
        &&& self.spec_state() == State::Ready
        &&& self.handle() != source.handle()
        &&& self.names(Side::Input) == source.names(Side::Input)
        &&& self.names(Side::Output) == source.names(Side::Output)
        &&& self.config() == Seq::<Call>::empty()
    }

    /// `self` is what destroying `before` leaves, and `released` the handle
    /// that is to be released for it.
    pub open spec fn destroyed_from(&self, before: &Predictor, released: Option<usize>) -> bool {
        &&& self.spec_state() == State::Destroyed
        &&& released == (if before.spec_state() == State::Ready {
            Some(before.handle())
        } else {
            None
        })
        &&& self.handle() == before.handle()
        &&& self.names(Side::Input) == before.names(Side::Input)
        &&& self.names(Side::Output) == before.names(Side::Output)
    }

    /// Starts the construction of a predictor: applies `config` to a
    /// fresh configuration handle.
    ///
    /// A configuration that fails its check is refused before any native
    /// call is made, and no predictor comes to be. Otherwise the predictor
    /// is being configured, and its configuration handle holds the calls of
    /// `config`, in order.
    pub fn new(config: Config) -> (built: Result<Predictor, ConfigError>)
        ensures
            match built {
                Ok(predictor) => {
                    &&& config.check() is Ok
                    &&& predictor.spec_state() == State::Configuring
                    &&& predictor.config() == config.calls()
                },
                Err(e) => config.check() == Err::<(), ConfigError>(e),
            },
    {
        let mut native = NativeConfig::new();
        match config.set_to(&mut native) {
            Ok(()) => {
                assert(native@ =~= config.calls());
                Ok(
                    Predictor {
                        state: State::Configuring,
                        config: native,
                        ptr: 0,
                        inputs: Vec::new(),
                        outputs: Vec::new(),
                    },
                )
            },
            Err(e) => Err(e),
        }
    }

    /// A ready predictor around a handle that the engine has made, with
    /// the names that the engine declares for its tensors.
    pub fn from_ptr(ptr: usize, inputs: Vec<String>, outputs: Vec<String>) -> (predictor: Predictor)
        ensures
            predictor.spec_state() == State::Ready,
            predictor.handle() == ptr,
            predictor.names(Side::Input) == texts(inputs@),
            predictor.names(Side::Output) == texts(outputs@),
            predictor.config() == Seq::<Call>::empty(),
    {
        Predictor { state: State::Ready, config: NativeConfig::new(), ptr, inputs, outputs }
    }

    /// Where the predictor stands in its life.
    #[verifier::when_used_as_spec(spec_state)]
    pub fn state(&self) -> (state: State)
        ensures
            state == self.spec_state(),
    {
        self.state
    }

    /// The calls to make on the native configuration handle, first to
    /// last, before the predictor is created from it. Each of them is well
    /// formed.
    pub fn config_calls(&self) -> (calls: &Vec<ConfigCall>)
        ensures
            call_views(calls@) == self.config(),
            forall|i: int| 0 <= i < calls@.len() ==> (#[trigger] calls@[i])@.well_formed(),
    {
        self.config.calls()
    }

    /// Ends the configuring: the engine has made the predictor `ptr` from
    /// the configuration handle, which is given up with this call.
    pub fn created(self, ptr: usize, inputs: Vec<String>, outputs: Vec<String>) -> (predictor:
        Predictor)
        requires
            self.spec_state() == State::Configuring,
        ensures
            predictor.spec_state() == State::Ready,
            predictor.handle() == ptr,
            predictor.names(Side::Input) == texts(inputs@),
            predictor.names(Side::Output) == texts(outputs@),
            predictor.config() == Seq::<Call>::empty(),
    {
        Predictor::from_ptr(ptr, inputs, outputs)
    }

    /// The names of the input tensors. The list is made anew for each call
    /// and is the caller's.
    pub fn input_names(&self) -> (names: Vec<String>)
        requires
            self.spec_state() == State::Ready,
        ensures
            texts(names@) == self.names(Side::Input),
    {
        copy_names(&self.inputs)
    }

    /// The number of input tensors.
    pub fn input_num(&self) -> (n: usize)
        requires
            self.spec_state() == State::Ready,
        ensures
            n == self.names(Side::Input).len(),
    {
        self.inputs.len()
    }

    /// Whether the predictor declares an input tensor under `name`, read as
    /// the engine reads it: up to its first zero byte.
    pub fn has_input(&self, name: &str) -> (declared: bool)
        ensures
            declared == self.declares(Side::Input, native_text(name@)),
    {
        let key = from_c_str(to_c_str(name).as_slice());
        find_name(&self.inputs, &key)
    }

    /// The view of the input tensor `name`. Of a name with a zero byte the
    /// engine reads only what stands before it.
    ///
    /// The view can be used if and only if the predictor declares an input
    /// tensor under that name: look the name up in the input names first.
    pub fn input(&self, name: &str) -> (tensor: Tensor)
        requires
            self.spec_state() == State::Ready,
        ensures
            self.looks_up(Side::Input, name@, &tensor),
            self.serves(&tensor) <==> self.declares(Side::Input, native_text(name@)),
    {
        Tensor { predictor: self.ptr, side: Side::Input, name: to_c_str(name) }
    }

    /// The names of the output tensors. The list is made anew for each
    /// call and is the caller's.
    pub fn output_names(&self) -> (names: Vec<String>)
        requires
            self.spec_state() == State::Ready,
        ensures
            texts(names@) == self.names(Side::Output),
    {
        copy_names(&self.outputs)
    }

    /// The number of output tensors.
    pub fn output_num(&self) -> (n: usize)
        requires
            self.spec_state() == State::Ready,
        ensures
            n == self.names(Side::Output).len(),
    {
        self.outputs.len()
    }

    /// Whether the predictor declares an output tensor under `name`, read
    /// as the engine reads it: up to its first zero byte.
    pub fn has_output(&self, name: &str) -> (declared: bool)
        ensures
            declared == self.declares(Side::Output, native_text(name@)),
    {
        let key = from_c_str(to_c_str(name).as_slice());
        find_name(&self.outputs, &key)
    }

    /// The view of the output tensor `name`. Of a name with a zero byte the
    /// engine reads only what stands before it.
    ///
    /// The view can be used if and only if the predictor declares an
    /// output tensor under that name: look the name up in the output names
    /// first.
    pub fn output(&self, name: &str) -> (tensor: Tensor)
        requires
            self.spec_state() == State::Ready,
        ensures
            self.looks_up(Side::Output, name@, &tensor),
            self.serves(&tensor) <==> self.declares(Side::Output, native_text(name@)),
    {
        Tensor { predictor: self.ptr, side: Side::Output, name: to_c_str(name) }
    }

    /// Judges a run by the flag that the engine returned from it. The input
    /// tensors must have been written before the run.
    ///
    /// A failed run is an error for the caller to handle. It leaves the
    /// predictor as it was, ready: the run can be made again once its
    /// inputs are right.
    pub fn run(&self, returned: PD_Bool) -> (outcome: Result<(), RunError>)
        requires
            self.spec_state() == State::Ready,
        ensures
            outcome == (if flag_is_set(returned) {
                Ok::<(), RunError>(())
            } else {
                Err::<(), RunError>(RunError::Failed)
            }),
    {
        if from_pd_bool(returned) {
            Ok(())
        } else {
            Err(RunError::Failed)
        }
    }

    /// Clears the intermediate tensors. The engine is not asked to do
    /// anything for this: the call is passed through and performs no
    /// action.
    pub fn clear_intermediate_tensor(&self) {
    }

    /// The predictor around `ptr`, the handle of the clone that the engine
    /// made of this one. The clone is an owner in its own right: it shares
    /// the model and so the names, has its own handle, and is destroyed on
    /// its own.
    pub fn cloned(&self, ptr: usize) -> (clone: Predictor)
        requires
            self.spec_state() == State::Ready,
            ptr != self.handle(),
        ensures
            clone.clone_of(self),
            clone.handle() == ptr,
    {
        let inputs = copy_names(&self.inputs);
        let outputs = copy_names(&self.outputs);
        Predictor::from_ptr(ptr, inputs, outputs)
    }

    /// Ends the predictor, and returns the native handle to release.
    ///
    /// A handle is returned exactly once: by the first call on a ready
    /// predictor. A predictor that was still being configured has no
    /// predictor handle, and one that is destroyed has none left.
    pub fn destroy(&mut self) -> (released: Option<usize>)
        ensures
            final(self).destroyed_from(old(self), released),
    {
        let released = match self.state {
            State::Ready => Some(self.ptr),
            _ => None,
        };
        self.state = State::Destroyed;
        released
    }
}

/// Looking a name up again gives a view of the same slot, so that what is
/// written through one view is read through the other. So do two names
/// that the engine reads alike: the same name, or two that differ only
/// after a zero byte. Either both views can be used or neither.
pub proof fn lemma_lookup_same_slot(
    predictor: Predictor,
    side: Side,
    name: Seq<char>,
    again: Seq<char>,
    first: Tensor,
    second: Tensor,
)
    requires
        native_text(name) == native_text(again),
        predictor.looks_up(side, name, &first),
        predictor.looks_up(side, again, &second),
    ensures
        first.slot() == second.slot(),
        predictor.serves(&first) == predictor.serves(&second),
{
}

/// Destroying a clone leaves the predictor that it was cloned from
/// untouched: the handle that is released is the clone's own, not that of
/// its source, and no view that the source serves is bound to it. The
/// source stays ready, for runs and for lookups, and its views remain of
/// use; the clone's no longer are.
pub proof fn lemma_clone_independent(
    source: Predictor,
    clone: Predictor,
    ended: Predictor,
    released: Option<usize>,
    tensor: Tensor,
)
    requires
        source.spec_state() == State::Ready,
        clone.clone_of(&source),
        ended.destroyed_from(&clone, released),
    ensures
        released == Some(clone.handle()),
        released != Some(source.handle()),
        source.serves(&tensor) ==> released != Some(tensor.predictor),
        clone.serves(&tensor) ==> !source.serves(&tensor),
        !ended.serves(&tensor),
{
}

/// A predictor is released at most once: destroying it again releases
/// nothing.
pub proof fn lemma_destroy_once(
    before: Predictor,
    ended: Predictor,
    released: Option<usize>,
    ended_again: Predictor,
    released_again: Option<usize>,
)
    requires
        ended.destroyed_from(&before, released),
        ended_again.destroyed_from(&ended, released_again),
    ensures
        released_again is None,
        ended_again.spec_state() == State::Destroyed,
{
}

} // verus!
