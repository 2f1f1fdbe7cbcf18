//! Per-instance uniform data: color, scale and offset for each drawn
//! instance.
//!
//! Values are held in fixed point, as integer millionths of a unit; the
//! host divides by one million when it uploads the buffer. Each instance
//! consumes six draws from the random source, in order: scale unit, the
//! three color channels, then the two offsets. The scale unit lies in
//! [0.2, 0.5) of a unit and is divided by the viewport aspect ratio
//! `width / height`, color channels lie in [0, 1] with alpha fixed at 1,
//! and offsets lie in [-0.9, 0.9].

use vstd::prelude::*;
use crate::rng::{draw_at, next_state, state_after, RandomSource};

verus! {

/// One unit, in the fixed-point scale used for instance data.
pub const UNIT: u64 = 1_000_000;

/// Uniform data for one instance, in millionths of a unit.
#[derive(Clone, Copy, Debug, PartialEq, Eq, Structural)]
pub struct InstanceUniform {
    pub color_r: u32,
    pub color_g: u32,
    pub color_b: u32,
    pub color_a: u32,
    pub scale_x: u64,
    pub scale_y: u64,
    pub offset_x: i32,
    pub offset_y: i32,
}

/// Map a draw into a scale unit in [0.2, 0.5) of a unit, then divide by
/// the aspect ratio `width / height`.
pub open spec fn scale_from(draw: u64, width: u32, height: u32) -> u64 {
    (((200_000 + draw % 300_000) * height) / (width as int)) as u64
}

/// Map a draw into a color channel in [0, 1] of a unit.
pub open spec fn channel_from(draw: u64) -> u32 {
    (draw % 1_000_001) as u32
}

/// Map a draw into an offset in [-0.9, 0.9] of a unit.
pub open spec fn offset_from(draw: u64) -> i32 {
    (draw % 1_800_001 - 900_000) as i32
}

/// The instance built from draws `6 * i .. 6 * i + 6` of a source seeded
/// with `seed`.
pub open spec fn instance_at(seed: u64, i: nat, width: u32, height: u32) -> InstanceUniform {
    let scale = scale_from(draw_at(seed, 6 * i), width, height);
    InstanceUniform {
        color_r: channel_from(draw_at(seed, 6 * i + 1)),
        color_g: channel_from(draw_at(seed, 6 * i + 2)),
        color_b: channel_from(draw_at(seed, 6 * i + 3)),
        color_a: UNIT as u32,
        scale_x: scale,
        scale_y: scale,
        offset_x: offset_from(draw_at(seed, 6 * i + 4)),
        offset_y: offset_from(draw_at(seed, 6 * i + 5)),
    }
}

/// The whole instance array for `count` instances: a function of the seed
/// and the viewport size alone.
pub open spec fn instances_from(seed: u64, count: nat, width: u32, height: u32) -> Seq<
    InstanceUniform,
> {
    Seq::new(count, |i: int| instance_at(seed, i as nat, width, height))
}

/// Every generated instance stays in its stated ranges: color channels in
/// [0, 1] of a unit with alpha exactly 1, offsets within [-0.9, 0.9] of a
/// unit, and one scale applied to both axes.
pub proof fn lemma_instance_ranges(seed: u64, i: nat, width: u32, height: u32)
    ensures
        ({
            let u = instance_at(seed, i, width, height);
            &&& u.color_r <= UNIT
            &&& u.color_g <= UNIT
            &&& u.color_b <= UNIT
            &&& u.color_a == UNIT
            &&& -900_000 <= u.offset_x <= 900_000
            &&& -900_000 <= u.offset_y <= 900_000
            &&& u.scale_x == u.scale_y
        }),
{
}

/// Generate `count` instances from the given source. The result is pinned
/// to the seed value the source started from, so two sources built from
/// the same seed yield element-for-element identical arrays.
pub fn generate_instances(count: u32, width: u32, height: u32, source: &mut RandomSource) -> (r:
    Vec<InstanceUniform>)
    requires
        width > 0,
    ensures
        r@ == instances_from(old(source).state, count as nat, width, height),
        final(source).state == state_after(old(source).state, 6 * count as nat),
{
    let ghost seed: u64 = source.state;
    let mut out: Vec<InstanceUniform> = Vec::new();
    let mut k: u32 = 0;
    while k < count
        invariant
            width > 0,
            k <= count,
            out@.len() == k,
            source.state == state_after(seed, 6 * k as nat),
            forall|i: int|
                0 <= i < out@.len() ==> #[trigger] out@[i] == instance_at(
                    seed,
                    i as nat,
                    width,
                    height,
                ),
        decreases count - k,
    {
        let d_scale = source.next_u64();
        let d_r = source.next_u64();
        let d_g = source.next_u64();
        let d_b = source.next_u64();
        let d_ox = source.next_u64();
        let d_oy = source.next_u64();
        proof {
            assert(state_after(seed, 6 * k as nat + 1) == next_state(state_after(seed, 6 * k as nat)));
            assert(state_after(seed, 6 * k as nat + 2) == next_state(state_after(seed, 6 * k as nat + 1)));
            assert(state_after(seed, 6 * k as nat + 3) == next_state(state_after(seed, 6 * k as nat + 2)));
            assert(state_after(seed, 6 * k as nat + 4) == next_state(state_after(seed, 6 * k as nat + 3)));
            assert(state_after(seed, 6 * k as nat + 5) == next_state(state_after(seed, 6 * k as nat + 4)));
            assert(state_after(seed, 6 * k as nat + 6) == next_state(state_after(seed, 6 * k as nat + 5)));
        }
        let unit: u64 = 200_000 + d_scale % 300_000;
        proof {
            assert(unit * (height as u64) <= 499_999 * 0xFFFF_FFFFu64) by (nonlinear_arith)
                requires
                    unit <= 499_999,
                    height <= 0xFFFF_FFFFu32,
            ;
        }
        let scale: u64 = unit * (height as u64) / (width as u64);
        let uniform = InstanceUniform {
            color_r: (d_r % 1_000_001) as u32,
            color_g: (d_g % 1_000_001) as u32,
            color_b: (d_b % 1_000_001) as u32,
            color_a: 1_000_000,
            scale_x: scale,
            scale_y: scale,
            offset_x: ((d_ox % 1_800_001) as i64 - 900_000) as i32,
            offset_y: ((d_oy % 1_800_001) as i64 - 900_000) as i32,
        };
        out.push(uniform);
        k = k + 1;
    }
    proof {
        assert(out@ =~= instances_from(seed, count as nat, width, height));
    }
    out
}

} // verus!
