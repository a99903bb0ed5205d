use vstd::prelude::*;

use crate::context::Context;
use crate::device::Device;
use crate::device::DeviceCall;

verus! {

/// How many calls in `calls` destroy framebuffer `fb`.
pub open spec fn spec_destroy_count(calls: Seq<DeviceCall>, fb: u32) -> nat
    decreases calls.len(),
{
    if calls.len() == 0 {
        0
    } else {
        spec_destroy_count(calls.drop_last(), fb) + (
        if calls.last() == (DeviceCall::DestroyFramebuffer { fb }) {
            1nat
        } else {
            0nat
        })
    }
}

/// Appending one call changes the destroy count of `y` by one exactly when
/// that call destroys `y`.
proof fn lemma_destroy_count_push(s: Seq<DeviceCall>, c: DeviceCall, y: u32)
    ensures
        spec_destroy_count(s.push(c), y) == spec_destroy_count(s, y) + (
        if c == (DeviceCall::DestroyFramebuffer { fb: y }) {
            1int
        } else {
            0int
        }),
{
    assert(s.push(c).drop_last() =~= s);
    assert(s.push(c).last() == c);
}

/// A successful present retires exactly the framebuffer installed by the
/// present before it: its call block destroys that framebuffer exactly
/// once, destroys nothing on a fresh context, and never destroys the
/// framebuffer it itself installs.
pub proof fn lemma_present_retires_exactly_previous(ctx: Context, device: Device)
    requires
        ctx.spec_present_failure(device) is None,
    ensures
        ctx.previous_fb matches Some(p) ==> spec_destroy_count(
            ctx.spec_present_calls(device),
            p,
        ) == 1,
        ctx.previous_fb is None ==> forall|y: u32|
            spec_destroy_count(ctx.spec_present_calls(device), y) == 0,
        forall|y: u32|
            y != ctx.previous_fb->0 ==> spec_destroy_count(ctx.spec_present_calls(device), y) == 0,
{
    let bo = device.next_bo;
    let fb = device.next_fb;
    let lock = (DeviceCall::LockFrontBuffer { bo });
    let add = (DeviceCall::AddFramebuffer { bo, fb, depth: ctx.depth, bpp: ctx.bpp });
    let set = (DeviceCall::SetCrtc {
        crtc: ctx.crtc,
        fb,
        connector: ctx.connector,
        mode: ctx.mode,
    });
    let s0 = Seq::<DeviceCall>::empty();
    let s1 = s0.push(lock);
    let s2 = s1.push(add);
    let s3 = s2.push(set);
    assert forall|y: u32| spec_destroy_count(s3, y) == 0 by {
        assert(spec_destroy_count(s0, y) == 0);
        lemma_destroy_count_push(s0, lock, y);
        lemma_destroy_count_push(s1, add, y);
        lemma_destroy_count_push(s2, set, y);
    }
    match ctx.previous_fb {
        Some(p) => {
            let destroy = (DeviceCall::DestroyFramebuffer { fb: p });
            let s4 = s3.push(destroy);
            assert(ctx.spec_present_calls(device) =~= s4);
            assert forall|y: u32|
                spec_destroy_count(s4, y) == (
                if y == p {
                    1int
                } else {
                    0int
                }) by {
                lemma_destroy_count_push(s3, destroy, y);
            }
        },
        None => {
            assert(ctx.spec_present_calls(device) =~= s3);
        },
    }
}

/// Presents serialized on one device never interleave: a present appends
/// its whole call block to the device's log before the next present
/// records anything, because each present holds the device exclusively -
/// which is what the lock around the shared device handle provides. So in
/// the log of two presents run in sequence, every call of the first -
/// registering its framebuffer included - stands before every call of the
/// second - installing its framebuffer included.
pub proof fn lemma_presents_do_not_interleave(
    l0: Seq<DeviceCall>,
    ctx1: Context,
    dev1: Device,
    ctx2: Context,
    dev2: Device,
)
    ensures
        ({
            let b1 = ctx1.spec_present_calls(dev1);
            let b2 = ctx2.spec_present_calls(dev2);
            let l = l0 + b1 + b2;
            &&& l.len() == l0.len() + b1.len() + b2.len()
            &&& forall|i: int| 0 <= i < b1.len() ==> l[l0.len() + i] == b1[i]
            &&& forall|j: int| 0 <= j < b2.len() ==> l[l0.len() + b1.len() + j] == b2[j]
            &&& forall|i: int, j: int|
                #![trigger b1[i], b2[j]]
                0 <= i < b1.len() && 0 <= j < b2.len() ==> l0.len() + i < l0.len() + b1.len() + j
        }),
{
}

} // verus!
