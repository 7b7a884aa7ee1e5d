//! Views of the tensors of a predictor.

use vstd::prelude::*;
use crate::utils::c_str_value;

verus! {

/// The side of a predictor that a tensor stands on.
#[derive(Debug, Clone, Copy, PartialEq, Eq, Structural)]
pub enum Side {
    /// What the model reads.
    Input,
    /// What the model writes.
    Output,
}

/// A view of one tensor of a predictor. It owns nothing: it names a slot of
/// the predictor, and is of use only while that predictor is ready.
#[derive(Debug, PartialEq, Eq)]
pub struct Tensor {
    /// The native handle of the predictor that the view is bound to.
    pub predictor: usize,
    /// The side that the tensor stands on.
    pub side: Side,
    /// The name of the tensor, as the null-terminated buffer that is handed
    /// to the engine when the tensor is looked up.
    pub name: Vec<u8>,
}

/// The slot of the engine that a tensor view refers to.
pub struct Slot {
    /// The native handle of the predictor.
    pub predictor: usize,
    /// The side of the predictor.
    pub side: Side,
    /// The name under which the engine finds the tensor: what it reads
    /// from the name buffer.
    pub name: Seq<u8>,
}

impl Tensor {
    /// The slot that the view refers to. Two views of one slot show the
    /// same tensor: what is written through one is read through the other.
    pub open spec fn slot(&self) -> Slot {
        Slot { predictor: self.predictor, side: self.side, name: c_str_value(self.name@) }
    }
}

/// The number of elements of a tensor of shape `shape`: the product of its
/// dimensions, and one for a shape without dimensions.
pub open spec fn elements(shape: Seq<i32>) -> int
    decreases shape.len(),
{
    if shape.len() == 0 {
        1
    } else {
        elements(shape.drop_last()) * shape.last()
    }
}

/// A shape whose dimensions are all known: none of them is negative.
pub open spec fn known(shape: Seq<i32>) -> bool {
    forall|i: int| 0 <= i < shape.len() ==> #[trigger] shape[i] >= 0
}

/// A known shape with a dimension of zero has no element.
proof fn lemma_elements_zero(shape: Seq<i32>, at: int)
    requires
        0 <= at < shape.len(),
        shape[at] == 0,
    ensures
        elements(shape) == 0,
    decreases shape.len(),
{
    let init = shape.drop_last();
    if at == shape.len() - 1 {
        assert(elements(init) * 0 == 0) by (nonlinear_arith);
    } else {
        assert(init[at] == shape[at]);
        lemma_elements_zero(init, at);
        assert(0 * (shape.last() as int) == 0) by (nonlinear_arith);
    }
}

/// With every dimension at least one, a longer prefix of a shape has no
/// fewer elements than a shorter one.
proof fn lemma_elements_grow(shape: Seq<i32>, upto: int)
    requires
        0 <= upto <= shape.len(),
        forall|i: int| 0 <= i < shape.len() ==> #[trigger] shape[i] >= 1,
    ensures
        1 <= elements(shape.take(upto)) <= elements(shape),
    decreases shape.len() - upto,
{
    lemma_elements_positive(shape.take(upto));
    if upto == shape.len() {
        assert(shape.take(upto) =~= shape);
    } else {
        let next = shape.take(upto + 1);
        assert(next.drop_last() =~= shape.take(upto));
        assert(next.last() == shape[upto]);
        let a = elements(shape.take(upto));
        let d = shape[upto] as int;
        assert(a <= a * d) by (nonlinear_arith)
            requires
                a >= 1,
                d >= 1,
        ;
        lemma_elements_grow(shape, upto + 1);
    }
}

/// With every dimension at least one, a shape has at least one element.
proof fn lemma_elements_positive(shape: Seq<i32>)
    requires
        forall|i: int| 0 <= i < shape.len() ==> #[trigger] shape[i] >= 1,
    ensures
        elements(shape) >= 1,
    decreases shape.len(),
{
    if shape.len() > 0 {
        let init = shape.drop_last();
        assert forall|i: int| 0 <= i < init.len() implies #[trigger] init[i] >= 1 by {
            assert(init[i] == shape[i]);
        }
        lemma_elements_positive(init);
        let a = elements(init);
        let d = shape.last() as int;
        assert(a * d >= 1) by (nonlinear_arith)
            requires
                a >= 1,
                d >= 1,
        ;
    }
}

/// The number of elements of a tensor of shape `shape`, which is what a
/// buffer must hold to take the data of the tensor.
///
/// There is no such number for a shape with a negative dimension, which
/// stands for a dimension that is not known yet, nor for one whose number of
/// elements no buffer can hold.
pub fn element_count(shape: &[i32]) -> (count: Option<usize>)
    ensures
        count == (if known(shape@) && elements(shape@) <= usize::MAX {
            Some(elements(shape@) as usize)
        } else {
            None
        }),
{
    let mut empty = false;
    let mut i: usize = 0;
    while i < shape.len()
        invariant
            0 <= i <= shape.len(),
            forall|j: int| 0 <= j < i ==> #[trigger] shape@[j] >= 0,
            empty <==> exists|j: int| 0 <= j < i && #[trigger] shape@[j] == 0,
        decreases shape.len() - i,
    {
        if shape[i] < 0 {
            assert(!known(shape@));
            return None;
        }
        if shape[i] == 0 {
            empty = true;
        }
        i = i + 1;
    }
    if empty {
        proof {
            let at = choose|j: int| 0 <= j < shape@.len() && #[trigger] shape@[j] == 0;
            lemma_elements_zero(shape@, at);
        }
        return Some(0);
    }
    let mut count: usize = 1;
    let mut k: usize = 0;
    assert(shape@.take(0) =~= Seq::<i32>::empty());
    while k < shape.len()
        invariant
            0 <= k <= shape.len(),
            forall|j: int| 0 <= j < shape@.len() ==> #[trigger] shape@[j] >= 1,
            count == elements(shape@.take(k as int)),
        decreases shape.len() - k,
    {
        proof {
            let next = shape@.take(k + 1);
            assert(next.drop_last() =~= shape@.take(k as int));
            assert(next.last() == shape@[k as int]);
            lemma_elements_grow(shape@, k + 1);
        }
        match count.checked_mul(shape[k] as usize) {
            Some(product) => {
                count = product;
            },
            None => {
                return None;
            },
        }
        k = k + 1;
    }
    assert(shape@.take(k as int) =~= shape@);
    Some(count)
}

} // verus!
