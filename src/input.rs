//! The input controller's decisions for one simulation tick: which local-axis
//! moves the pressed movement keys ask for, and which look rotations the mouse
//! drag asks for while the look button is held. The caller scales each move by
//! speed and elapsed time, and each look rotation by the look speed and
//! elapsed time, and applies them to the camera in the order given.
use vstd::prelude::*;
use crate::layout::SIGN_BIT;

verus! {

/// One of the camera's local axes.
#[derive(Clone, Copy, Debug, PartialEq, Eq, Structural)]
pub enum LocalAxis {
    Forward,
    Right,
    Up,
}

/// The movement keys held during a tick (W, S, A, D, R, F by default).
#[derive(Clone, Copy, Debug, PartialEq, Eq, Structural)]
pub struct MoveKeys {
    pub forward: bool,
    pub back: bool,
    pub left: bool,
    pub right: bool,
    pub up: bool,
    pub down: bool,
}

/// A unit move along a local axis, in its positive or its negative direction.
#[derive(Clone, Copy, Debug, PartialEq, Eq, Structural)]
pub struct AxisMove {
    pub axis: LocalAxis,
    pub negative: bool,
}

/// A mouse drag delta of one motion event, each component held by its
/// single-precision encoding.
#[derive(Clone, Copy, Debug, PartialEq, Eq, Structural)]
pub struct MouseMotion {
    pub dx: u32,
    pub dy: u32,
}

/// A look rotation before scaling: pitch about the local X axis, then yaw
/// about the local Y axis, each held by its single-precision encoding.
#[derive(Clone, Copy, Debug, PartialEq, Eq, Structural)]
pub struct LookRotation {
    pub pitch: u32,
    pub yaw: u32,
}

/// The move that one key asks for while it is held.
pub open spec fn key_move(pressed: bool, axis: LocalAxis, negative: bool) -> Seq<AxisMove> {
    if pressed {
        seq![AxisMove { axis, negative }]
    } else {
        Seq::empty()
    }
}

/// The moves of a tick, in key order: forward, back, left, right, up, down.
pub open spec fn moves_of(k: MoveKeys) -> Seq<AxisMove> {
    key_move(k.forward, LocalAxis::Forward, false) + key_move(k.back, LocalAxis::Forward, true)
        + key_move(k.left, LocalAxis::Right, true) + key_move(k.right, LocalAxis::Right, false)
        + key_move(k.up, LocalAxis::Up, false) + key_move(k.down, LocalAxis::Up, true)
}

/// The number of unit steps that `moves` makes along `axis`, with sign.
pub open spec fn net_steps(moves: Seq<AxisMove>, axis: LocalAxis) -> int
    decreases moves.len(),
{
    if moves.len() == 0 {
        0
    } else {
        let m = moves.last();
        net_steps(moves.drop_last(), axis) + if m.axis != axis {
            0int
        } else if m.negative {
            -1int
        } else {
            1int
        }
    }
}

/// Whether an encoded value is zero, of either sign.
pub open spec fn is_zero(w: u32) -> bool {
    w == 0 || w == SIGN_BIT
}

/// The look rotation that one drag asks for: the drag negated, so that the
/// view follows the hand; vertical drag pitches, horizontal drag yaws. A drag
/// of zero asks for none.
pub open spec fn look_of(m: MouseMotion) -> Seq<LookRotation> {
    if is_zero(m.dx) && is_zero(m.dy) {
        Seq::empty()
    } else {
        seq![LookRotation { pitch: m.dy ^ SIGN_BIT, yaw: m.dx ^ SIGN_BIT }]
    }
}

/// The look rotations of a sequence of drags, in order.
pub open spec fn looks_of(ms: Seq<MouseMotion>) -> Seq<LookRotation>
    decreases ms.len(),
{
    if ms.len() == 0 {
        Seq::empty()
    } else {
        looks_of(ms.drop_last()) + look_of(ms.last())
    }
}

fn push_move(out: &mut Vec<AxisMove>, pressed: bool, axis: LocalAxis, negative: bool)
    ensures
        final(out)@ == old(out)@ + key_move(pressed, axis, negative),
{
    if pressed {
        out.push(AxisMove { axis, negative });
    }
    assert(final(out)@ =~= old(out)@ + key_move(pressed, axis, negative));
}

/// The moves that the held movement keys ask for in one tick, in key order.
pub fn process_camera_translation(keys: &MoveKeys) -> (r: Vec<AxisMove>)
    ensures
        r@ == moves_of(*keys),
{
    let mut out: Vec<AxisMove> = Vec::new();
    push_move(&mut out, keys.forward, LocalAxis::Forward, false);
    push_move(&mut out, keys.back, LocalAxis::Forward, true);
    push_move(&mut out, keys.left, LocalAxis::Right, true);
    push_move(&mut out, keys.right, LocalAxis::Right, false);
    push_move(&mut out, keys.up, LocalAxis::Up, false);
    push_move(&mut out, keys.down, LocalAxis::Up, true);
    assert(out@ =~= moves_of(*keys));
    out
}

/// The look rotations that the drags of one tick ask for: one per drag that
/// is not zero while the look button is held; none otherwise, and a drag made
/// without the button is dropped, not kept for later.
pub fn process_camera_rotation(motions: &Vec<MouseMotion>, look_held: bool) -> (r: Vec<
    LookRotation,
>)
    ensures
        look_held ==> r@ == looks_of(motions@),
        !look_held ==> r@.len() == 0,
{
    let mut out: Vec<LookRotation> = Vec::new();
    if !look_held {
        return out;
    }
    let mut i: usize = 0;
    while i < motions.len()
        invariant
            i <= motions@.len(),
            out@ == looks_of(motions@.take(i as int)),
        decreases motions@.len() - i,
    {
        let m = motions[i];
        proof {
            assert(motions@.take(i + 1).drop_last() =~= motions@.take(i as int));
            assert(motions@.take(i + 1).last() == m);
        }
        let ghost prev = out@;
        if !((m.dx == 0 || m.dx == SIGN_BIT) && (m.dy == 0 || m.dy == SIGN_BIT)) {
            out.push(LookRotation { pitch: m.dy ^ SIGN_BIT, yaw: m.dx ^ SIGN_BIT });
        }
        assert(out@ =~= prev + look_of(m));
        i = i + 1;
    }
    assert(motions@.take(motions@.len() as int) =~= motions@);
    out
}

/// Within a tick, the moves add up per axis: the net number of steps along
/// forward is (forward held) - (back held), along right (right held) - (left
/// held), along up (up held) - (down held). Opposite keys held together cancel.
pub proof fn lemma_moves_net_per_axis(k: MoveKeys)
    ensures
        net_steps(moves_of(k), LocalAxis::Forward) == (if k.forward { 1int } else { 0int }) - (
        if k.back { 1int } else { 0int }),
        net_steps(moves_of(k), LocalAxis::Right) == (if k.right { 1int } else { 0int }) - (
        if k.left { 1int } else { 0int }),
        net_steps(moves_of(k), LocalAxis::Up) == (if k.up { 1int } else { 0int }) - (if k.down {
            1int
        } else {
            0int
        }),
{
    lemma_moves_net(k, LocalAxis::Forward);
    lemma_moves_net(k, LocalAxis::Right);
    lemma_moves_net(k, LocalAxis::Up);
}

/// The signed steps that one key's move makes along `other`.
spec fn key_steps(pressed: bool, axis: LocalAxis, negative: bool, other: LocalAxis) -> int {
    if pressed && axis == other {
        if negative {
            -1int
        } else {
            1int
        }
    } else {
        0int
    }
}

proof fn lemma_key_move_steps(pressed: bool, axis: LocalAxis, negative: bool, other: LocalAxis)
    ensures
        net_steps(key_move(pressed, axis, negative), other) == key_steps(pressed, axis, negative, other),
{
    let s = key_move(pressed, axis, negative);
    assert(net_steps(Seq::<AxisMove>::empty(), other) == 0);
    if pressed {
        assert(s.drop_last() =~= Seq::<AxisMove>::empty());
        assert(s.last() == (AxisMove { axis, negative }));
    }
}

proof fn lemma_net_steps_append(a: Seq<AxisMove>, b: Seq<AxisMove>, axis: LocalAxis)
    ensures
        net_steps(a + b, axis) == net_steps(a, axis) + net_steps(b, axis),
    decreases b.len(),
{
    if b.len() > 0 {
        assert((a + b).drop_last() =~= a + b.drop_last());
        assert((a + b).last() == b.last());
        lemma_net_steps_append(a, b.drop_last(), axis);
    } else {
        assert(a + b =~= a);
    }
}

proof fn lemma_moves_net(k: MoveKeys, axis: LocalAxis)
    ensures
        net_steps(moves_of(k), axis) == key_steps(k.forward, LocalAxis::Forward, false, axis)
            + key_steps(k.back, LocalAxis::Forward, true, axis) + key_steps(
            k.left,
            LocalAxis::Right,
            true,
            axis,
        ) + key_steps(k.right, LocalAxis::Right, false, axis) + key_steps(
            k.up,
            LocalAxis::Up,
            false,
            axis,
        ) + key_steps(k.down, LocalAxis::Up, true, axis),
{
    let s1 = key_move(k.forward, LocalAxis::Forward, false);
    let s2 = key_move(k.back, LocalAxis::Forward, true);
    let s3 = key_move(k.left, LocalAxis::Right, true);
    let s4 = key_move(k.right, LocalAxis::Right, false);
    let s5 = key_move(k.up, LocalAxis::Up, false);
    let s6 = key_move(k.down, LocalAxis::Up, true);
    lemma_net_steps_append(s1, s2, axis);
    lemma_net_steps_append(s1 + s2, s3, axis);
    lemma_net_steps_append(s1 + s2 + s3, s4, axis);
    lemma_net_steps_append(s1 + s2 + s3 + s4, s5, axis);
    lemma_net_steps_append(s1 + s2 + s3 + s4 + s5, s6, axis);
    lemma_key_move_steps(k.forward, LocalAxis::Forward, false, axis);
    lemma_key_move_steps(k.back, LocalAxis::Forward, true, axis);
    lemma_key_move_steps(k.left, LocalAxis::Right, true, axis);
    lemma_key_move_steps(k.right, LocalAxis::Right, false, axis);
    lemma_key_move_steps(k.up, LocalAxis::Up, false, axis);
    lemma_key_move_steps(k.down, LocalAxis::Up, true, axis);
}

/// A drag of zero asks for no rotation, so a tick whose drags are all zero
/// leaves the camera's orientation exactly as it was.
pub proof fn lemma_zero_drag_no_rotation(ms: Seq<MouseMotion>)
    requires
        forall|i: int| 0 <= i < ms.len() ==> is_zero(#[trigger] ms[i].dx) && is_zero(ms[i].dy),
    ensures
        looks_of(ms).len() == 0,
    decreases ms.len(),
{
    if ms.len() > 0 {
        let rest = ms.drop_last();
        assert forall|i: int| 0 <= i < rest.len() implies is_zero(#[trigger] rest[i].dx) && is_zero(
            rest[i].dy,
        ) by {
            assert(rest[i] == ms[i]);
        }
        lemma_zero_drag_no_rotation(rest);
        assert(is_zero(ms[ms.len() - 1].dx));
    }
}

} // verus!
