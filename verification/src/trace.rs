//! What the tracer decides for one ray: which surface it meets first, whether
//! a light reaches the point it meets, and which bytes a colour becomes.

use vstd::prelude::*;
use crate::scalar::{lemma_order_key_keeps_numbers, lemma_order_key_orders, Scalar};
use crate::util::Color;

verus! {

/// The pattern of the intensity under which a light is passed over: one
/// ten-thousandth.
pub const MIN_INTENSITY_BITS: u32 = 0x38d1_b717;

/// Whether place `k` holds the closest hit among the first `n` of `hits`: it
/// holds a hit, no hit among them comes before it in the total order of
/// distances, and the hits at earlier places come after it.
///
/// So of several hits at one distance the one at the earliest place counts.
/// Which that is depends on the order of the objects alone; nothing else
/// about them is meant by it.
pub open spec fn is_closest_among(hits: Seq<Option<Scalar>>, n: int, k: int) -> bool {
    &&& 0 <= k < n <= hits.len()
    &&& hits[k] is Some
    &&& forall|j: int|
        0 <= j < n && hits[j] is Some ==> hits[k].unwrap().order_key()
            <= (#[trigger] hits[j]).unwrap().order_key()
    &&& forall|j: int|
        0 <= j < k && hits[j] is Some ==> hits[k].unwrap().order_key()
            < (#[trigger] hits[j]).unwrap().order_key()
}

/// Whether place `k` holds the closest hit of `hits`.
pub open spec fn is_closest(hits: Seq<Option<Scalar>>, k: int) -> bool {
    is_closest_among(hits, hits.len() as int, k)
}

/// Whether any of the first `n` of `hits` is a hit.
pub open spec fn any_hit_among(hits: Seq<Option<Scalar>>, n: int) -> bool {
    exists|j: int| 0 <= j < n && (#[trigger] hits[j]) is Some
}

/// The distance of the closest hit, if there is a hit.
pub open spec fn closest_distance(hits: Seq<Option<Scalar>>) -> Option<Scalar> {
    if exists|k: int| is_closest(hits, k) {
        hits[choose|k: int| is_closest(hits, k)]
    } else {
        None
    }
}

/// The closest of the hits of one ray on the objects of a scene: its place
/// among the objects and its distance. `hits[i]` is the distance at which the
/// ray meets object `i`, if it meets it.
pub fn closest_collision(hits: &Vec<Option<Scalar>>) -> (r: Option<(usize, Scalar)>)
    ensures
        match r {
            Some((k, d)) => is_closest(hits@, k as int) && hits@[k as int] == Some(d),
            None => !any_hit_among(hits@, hits@.len() as int),
        },
        closest_distance(hits@) == (match r {
            Some((k, d)) => Some(d),
            None => None,
        }),
{
    let mut best: Option<(usize, Scalar)> = None;
    let mut i: usize = 0;
    while i < hits.len()
        invariant
            i <= hits.len(),
            match best {
                Some((k, d)) => is_closest_among(hits@, i as int, k as int) && hits@[k as int]
                    == Some(d),
                None => !any_hit_among(hits@, i as int),
            },
        decreases hits.len() - i,
    {
        match hits[i] {
            Some(d) => {
                match best {
                    Some((_, b)) => {
                        if d.order_key() < b.order_key() {
                            best = Some((i, d));
                        }
                    },
                    None => {
                        best = Some((i, d));
                    },
                }
            },
            None => {},
        }
        i += 1;
    }
    proof {
        match best {
            Some((k, d)) => {
                lemma_closest_is_chosen(hits@, k as int);
            },
            None => {
                assert forall|k: int| !is_closest(hits@, k) by {
                    if is_closest(hits@, k) {
                        assert(hits@[k] is Some);
                    }
                }
            },
        }
    }
    best
}

/// The closest hit is no farther than any other hit: where neither distance
/// is a NaN, the closest is less than the other or equal to it.
pub proof fn lemma_closest_is_least(hits: Seq<Option<Scalar>>, k: int, j: int)
    requires
        is_closest(hits, k),
        0 <= j < hits.len(),
        hits[j] is Some,
        !hits[k].unwrap().is_nan(),
        !hits[j].unwrap().is_nan(),
    ensures
        hits[k].unwrap().le(hits[j].unwrap()),
{
    lemma_order_key_keeps_numbers(hits[k].unwrap(), hits[j].unwrap());
}

/// At most one place holds the closest hit.
pub proof fn lemma_closest_unique(hits: Seq<Option<Scalar>>, i: int, j: int)
    requires
        is_closest(hits, i),
        is_closest(hits, j),
    ensures
        i == j,
{
    if i < j {
        assert(hits[j].unwrap().order_key() < hits[i].unwrap().order_key());
        assert(hits[i].unwrap().order_key() <= hits[j].unwrap().order_key());
    }
    if j < i {
        assert(hits[i].unwrap().order_key() < hits[j].unwrap().order_key());
        assert(hits[j].unwrap().order_key() <= hits[i].unwrap().order_key());
    }
}

/// The distance at the place of the closest hit is the closest distance.
pub proof fn lemma_closest_is_chosen(hits: Seq<Option<Scalar>>, k: int)
    requires
        is_closest(hits, k),
    ensures
        closest_distance(hits) == hits[k],
{
    let c = choose|c: int| is_closest(hits, c);
    lemma_closest_unique(hits, k, c);
}

/// Where there is a hit among the first `n`, one of them is the closest.
pub proof fn lemma_closest_exists(hits: Seq<Option<Scalar>>, n: int) -> (k: int)
    requires
        0 <= n <= hits.len(),
        any_hit_among(hits, n),
    ensures
        is_closest_among(hits, n, k),
    decreases n,
{
    if any_hit_among(hits, n - 1) {
        let before = lemma_closest_exists(hits, n - 1);
        if hits[n - 1] is Some && hits[n - 1].unwrap().order_key()
            < hits[before].unwrap().order_key() {
            n - 1
        } else {
            before
        }
    } else {
        let j = choose|j: int| 0 <= j < n && (#[trigger] hits[j]) is Some;
        assert(j == n - 1) by {
            if j < n - 1 {
                assert(any_hit_among(hits, n - 1));
            }
        }
        assert forall|i: int| 0 <= i < n - 1 implies !((#[trigger] hits[i]) is Some) by {
            if hits[i] is Some {
                assert(any_hit_among(hits, n - 1));
            }
        }
        n - 1
    }
}

/// The closest distance does not depend on the order of the objects: two
/// lists that hold the same hits, each as often as the other, have the same
/// closest distance.
pub proof fn lemma_closest_ignores_order(a: Seq<Option<Scalar>>, b: Seq<Option<Scalar>>)
    requires
        a.to_multiset() =~= b.to_multiset(),
    ensures
        closest_distance(a) == closest_distance(b),
{
    a.to_multiset_ensures();
    b.to_multiset_ensures();
    if any_hit_among(a, a.len() as int) {
        let ka = lemma_closest_exists(a, a.len() as int);
        lemma_closest_is_chosen(a, ka);
        assert(a.contains(a[ka]));
        assert(a.to_multiset().count(a[ka]) > 0);
        assert(b.to_multiset().count(a[ka]) > 0);
        assert(b.contains(a[ka]));
        let m = choose|m: int| 0 <= m < b.len() && b[m] == a[ka];
        assert(b[m] is Some);
        assert(any_hit_among(b, b.len() as int));
        let kb = lemma_closest_exists(b, b.len() as int);
        lemma_closest_is_chosen(b, kb);
        assert(b.contains(b[kb]));
        assert(b.to_multiset().count(b[kb]) > 0);
        assert(a.to_multiset().count(b[kb]) > 0);
        assert(a.contains(b[kb]));
        let w = choose|w: int| 0 <= w < a.len() && a[w] == b[kb];
        assert(a[w] is Some);
        assert(b[kb].unwrap().order_key() <= b[m].unwrap().order_key());
        assert(a[ka].unwrap().order_key() <= a[w].unwrap().order_key());
        lemma_order_key_orders(a[ka].unwrap(), b[kb].unwrap());
    } else {
        assert forall|k: int| !is_closest(a, k) by {
            if is_closest(a, k) {
                assert(a[k] is Some);
            }
        }
        assert forall|k: int| !is_closest(b, k) by {
            if is_closest(b, k) {
                assert(b.contains(b[k]));
                assert(b.to_multiset().count(b[k]) > 0);
                assert(a.to_multiset().count(b[k]) > 0);
                assert(a.contains(b[k]));
                let w = choose|w: int| 0 <= w < a.len() && a[w] == b[k];
                assert(a[w] is Some);
            }
        }
    }
}

/// Whether something stands between a point and a light. `occluder` is the
/// closest hit of the ray from the point toward the light, `light_dist` the
/// distance to the light. The point is shaded if that hit is nearer than the
/// light. With no hit nothing shades it, however far the light.
pub open spec fn in_shadow(occluder: Option<Scalar>, light_dist: Scalar) -> bool {
    match occluder {
        Some(d) => d.lt(light_dist),
        None => false,
    }
}

/// Whether a light adds to the colour of a point.
///
/// `intensity` is the light's intensity at the point, `occluder` and
/// `light_dist` are as in [`in_shadow`], and `cos` is the cosine of the angle
/// between the surface normal and the direction to the light. The light adds
/// nothing if it is too weak there (below one ten-thousandth), if the point
/// is shaded, or if the light stands behind the surface (`cos` below zero).
pub open spec fn light_reaches(
    intensity: Scalar,
    occluder: Option<Scalar>,
    light_dist: Scalar,
    cos: Scalar,
) -> bool {
    &&& !intensity.lt(Scalar { bits: MIN_INTENSITY_BITS })
    &&& !in_shadow(occluder, light_dist)
    &&& !cos.lt(Scalar::zero())
}

/// Whether a light is too weak at a point to be looked at any further.
pub fn negligible(intensity: Scalar) -> (r: bool)
    ensures
        r == intensity.lt(Scalar { bits: MIN_INTENSITY_BITS }),
{
    intensity.lt(Scalar { bits: MIN_INTENSITY_BITS })
}

/// Whether something stands between a point and a light; see [`in_shadow`].
pub fn shaded(occluder: Option<Scalar>, light_dist: Scalar) -> (r: bool)
    ensures
        r == in_shadow(occluder, light_dist),
{
    match occluder {
        Some(d) => d.lt(light_dist),
        None => false,
    }
}

/// Whether a light adds to the colour of a point; see [`light_reaches`].
pub fn one_light(
    intensity: Scalar,
    occluder: Option<Scalar>,
    light_dist: Scalar,
    cos: Scalar,
) -> (r: bool)
    ensures
        r == light_reaches(intensity, occluder, light_dist, cos),
        in_shadow(occluder, light_dist) ==> !r,
{
    !negligible(intensity) && !shaded(occluder, light_dist) && !cos.lt(Scalar::zero())
}

/// A surface nearer than the light takes the light away from the point
/// behind it; with that surface gone the light is back, if it is strong
/// enough there and stands before the surface the point is on.
pub proof fn lemma_occluder_takes_light(
    intensity: Scalar,
    occluder: Scalar,
    light_dist: Scalar,
    cos: Scalar,
)
    requires
        occluder.lt(light_dist),
    ensures
        !light_reaches(intensity, Some(occluder), light_dist, cos),
        light_reaches(intensity, None, light_dist, cos) == (!intensity.lt(
            Scalar { bits: MIN_INTENSITY_BITS },
        ) && !cos.lt(Scalar::zero())),
{
}

/// The colour of a ray: what shading gave for the surface it met, or the
/// background where it met none.
pub fn trace_ray(background: Color, surface: Option<Color>) -> (c: Color)
    ensures
        c == (match surface {
            Some(s) => s,
            None => background,
        }),
{
    match surface {
        Some(s) => s,
        None => background,
    }
}

/// The three bytes of a pixel. `scaled` is the pixel's colour, brought down
/// to what can be shown, with each channel multiplied by 255; each byte is
/// the integer part of its channel.
pub fn trace_pixel(scaled: Color) -> (px: [u8; 3])
    ensures
        px[0] == scaled.r.to_u8(),
        px[1] == scaled.g.to_u8(),
        px[2] == scaled.b.to_u8(),
{
    [scaled.r.to_u8(), scaled.g.to_u8(), scaled.b.to_u8()]
}

} // verus!
