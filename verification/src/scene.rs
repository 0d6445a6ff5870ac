//! A scene, and the picture of it.

use vstd::prelude::*;
use crate::light::DynamicLight;
use crate::picture::Picture;
use crate::renderable::DynamicRenderable;
use crate::scalar::{lemma_ordinal_orders, Scalar, ONE_BITS};
use crate::util::Color;
use crate::vector::Vector3;

verus! {

/// A single renderable scene.
///
/// A scene is built once and then only read: tracing one pixel changes
/// nothing in it, so the pixels can be traced in any order, or all at once.
#[derive(Clone, Debug, PartialEq, Eq)]
pub struct Scene {
    /// The position the camera is at.
    pub camera_position: Vector3,
    /// The direction the camera is facing, of length one.
    pub camera_direction: Vector3,
    /// The "up vector" for the camera, of length one.
    pub camera_up: Vector3,
    /// The tangent of one half of the vertical angle of the view frustum.
    pub camera_half_angle_tan: Scalar,
    /// The width of the output image, above zero.
    pub width: u32,
    /// The height of the output image, above zero.
    pub height: u32,
    /// The file to save the output image to.
    pub output_image: Option<String>,
    /// The ambient light color.
    pub ambient_light: Color,
    /// The background light color.
    pub background: Color,
    /// The lights in the scene.
    pub lights: Vec<DynamicLight>,
    /// The objects in the scene.
    pub objects: Vec<DynamicRenderable>,
    /// The number of times a ray may be followed from surface to surface.
    /// Shading stops at the first surface, so nothing reads it yet.
    pub max_collisions: usize,
}

/// The place of the pixel in column `x` of row `y` among the pixels of a
/// picture `width` wide: the rows follow one another from the top down, and
/// in a row the pixels go from left to right.
pub open spec fn pixel_index(width: u32, x: u32, y: u32) -> int {
    y * width + x
}

/// The bytes of a row of pixels laid end to end, three for each.
pub open spec fn packed(rays: Seq<[u8; 3]>) -> Seq<u8> {
    Seq::new(3 * rays.len(), |i: int| rays[i / 3][i % 3])
}

/// In a picture `width` wide, a pixel that comes earlier (in a row above, or
/// in the same row further left) has the smaller index.
pub proof fn lemma_pixel_index_increases(width: u32, x1: u32, y1: u32, x2: u32, y2: u32)
    requires
        x1 < width,
        x2 <= width,
        y1 < y2 || (y1 == y2 && x1 < x2),
    ensures
        0 <= pixel_index(width, x1, y1) < pixel_index(width, x2, y2),
{
    assert(0 <= y1 * width + x1 < y2 * width + x2) by (nonlinear_arith)
        requires
            x1 < width,
            x2 <= width,
            y1 < y2 || (y1 == y2 && x1 < x2),
    ;
}

/// No two pixels of a picture share an index, and every index below
/// `width * height` belongs to a pixel.
pub proof fn lemma_pixel_index_is_one_to_one(width: u32, height: u32, x1: u32, y1: u32, x2: u32, y2: u32)
    requires
        x1 < width,
        x2 < width,
        y1 < height,
        y2 < height,
    ensures
        0 <= pixel_index(width, x1, y1) < width * height,
        pixel_index(width, x1, y1) == pixel_index(width, x2, y2) ==> x1 == x2 && y1 == y2,
{
    if y1 < y2 || (y1 == y2 && x1 < x2) {
        lemma_pixel_index_increases(width, x1, y1, x2, y2);
    }
    if y2 < y1 || (y1 == y2 && x2 < x1) {
        lemma_pixel_index_increases(width, x2, y2, x1, y1);
    }
    assert(0 <= y1 * width + x1 < width * height) by (nonlinear_arith)
        requires
            x1 < width,
            y1 < height,
    ;
}

impl Scene {
    /// Whether the scene is one the tracer accepts: the picture has at least
    /// one column and one row, the camera's direction and its up vector are
    /// not zero, and every object and every light is well formed.
    ///
    /// That the directions have length one, and that the camera's two stand
    /// at a right angle, is for whoever builds the scene to see to.
    pub open spec fn well_formed(&self) -> bool {
        &&& self.width > 0
        &&& self.height > 0
        &&& !self.camera_direction.is_zero()
        &&& !self.camera_up.is_zero()
        &&& forall|i: int|
            0 <= i < self.objects@.len() ==> (#[trigger] self.objects@[i]).well_formed()
        &&& forall|i: int|
            0 <= i < self.lights@.len() ==> (#[trigger] self.lights@[i]).well_formed()
    }

    /// Whether `rays` holds what `trace_pixel` gave for each pixel of the
    /// scene's picture, each at its own place.
    pub open spec fn traced<F: Fn(u32, u32) -> [u8; 3]>(
        &self,
        trace_pixel: F,
        rays: Seq<[u8; 3]>,
    ) -> bool {
        &&& rays.len() == self.width * self.height
        &&& forall|x: u32, y: u32|
            x < self.width && y < self.height ==> #[trigger] call_ensures(
                trace_pixel,
                (x, y),
                rays[pixel_index(self.width, x, y)],
            )
    }

    /// Whether the scene is one the tracer accepts.
    pub fn is_well_formed(&self) -> (r: bool)
        ensures
            r == self.well_formed(),
    {
        if self.width == 0 || self.height == 0 {
            return false;
        }
        if self.camera_direction.is_zero() || self.camera_up.is_zero() {
            return false;
        }
        let mut k: usize = 0;
        while k < self.lights.len()
            invariant
                k <= self.lights@.len(),
                forall|j: int| 0 <= j < k ==> (#[trigger] self.lights@[j]).well_formed(),
            decreases self.lights@.len() - k,
        {
            if !self.lights[k].is_well_formed() {
                return false;
            }
            k += 1;
        }
        let mut i: usize = 0;
        while i < self.objects.len()
            invariant
                i <= self.objects@.len(),
                forall|j: int| 0 <= j < i ==> (#[trigger] self.objects@[j]).well_formed(),
                forall|j: int|
                    0 <= j < self.lights@.len() ==> (#[trigger] self.lights@[j]).well_formed(),
            decreases self.objects@.len() - i,
        {
            if !self.objects[i].is_well_formed() {
                return false;
            }
            i += 1;
        }
        true
    }

    /// The pixels of the picture, each as `trace_pixel` gives it for its
    /// column and row, in the order of [`pixel_index`].
    pub fn render_rays<F: Fn(u32, u32) -> [u8; 3]>(&self, trace_pixel: F) -> (rays: Vec<[u8; 3]>)
        requires
            forall|x: u32, y: u32|
                x < self.width && y < self.height ==> call_requires(trace_pixel, (x, y)),
        ensures
            self.traced(trace_pixel, rays@),
    {
        let width = self.width;
        let height = self.height;
        let mut rays: Vec<[u8; 3]> = Vec::new();
        let mut y: u32 = 0;
        while y < height
            invariant
                width == self.width,
                height == self.height,
                y <= height,
                rays@.len() == y * width,
                forall|x: u32, y: u32|
                    x < self.width && y < self.height ==> call_requires(trace_pixel, (x, y)),
                forall|i: u32, j: u32|
                    i < width && j < y ==> #[trigger] call_ensures(
                        trace_pixel,
                        (i, j),
                        rays@[pixel_index(width, i, j)],
                    ),
            decreases height - y,
        {
            let mut x: u32 = 0;
            while x < width
                invariant
                    width == self.width,
                    height == self.height,
                    y < height,
                    x <= width,
                    rays@.len() == y * width + x,
                    forall|x: u32, y: u32|
                        x < self.width && y < self.height ==> call_requires(trace_pixel, (x, y)),
                    forall|i: u32, j: u32|
                        i < width && (j < y || (j == y && i < x)) ==> #[trigger] call_ensures(
                            trace_pixel,
                            (i, j),
                            rays@[pixel_index(width, i, j)],
                        ),
                decreases width - x,
            {
                let px = trace_pixel(x, y);
                let ghost before = rays@;
                rays.push(px);
                proof {
                    assert forall|i: u32, j: u32|
                        i < width && (j < y || (j == y && i < x + 1)) implies #[trigger] call_ensures(
                        trace_pixel,
                        (i, j),
                        rays@[pixel_index(width, i, j)],
                    ) by {
                        if j < y || i < x {
                            lemma_pixel_index_increases(width, i, j, x, y);
                            assert(rays@[pixel_index(width, i, j)] == before[pixel_index(
                                width,
                                i,
                                j,
                            )]);
                        }
                    }
                }
                x += 1;
            }
            proof {
                assert(y * width + width == (y + 1) * width) by (nonlinear_arith);
            }
            y += 1;
        }
        proof {
            assert(height * width == width * height) by (nonlinear_arith);
        }
        rays
    }

    /// The picture of the scene: `width` by `height` pixels, each as
    /// `trace_pixel` gives it for its column and row.
    pub fn render<F: Fn(u32, u32) -> [u8; 3]>(&self, trace_pixel: F) -> (picture: Picture)
        requires
            self.width > 0,
            self.height > 0,
            forall|x: u32, y: u32|
                x < self.width && y < self.height ==> call_requires(trace_pixel, (x, y)),
        ensures
            picture.width() == self.width,
            picture.height() == self.height,
            exists|rays: Seq<[u8; 3]>|
                self.traced(trace_pixel, rays) && picture.bytes() == packed(rays),
    {
        let rays = self.render_rays(trace_pixel);
        let buf = pack(&rays);
        let len = buf.len();
        proof {
            let w = self.width as int;
            let h = self.height as int;
            assert(3 * w <= 3 * (w * h) && 3 * w * h == 3 * (w * h)) by (nonlinear_arith)
                requires
                    w > 0,
                    h > 0,
            ;
            assert(3 * w <= len);
        }
        let made = Picture::from_raw(self.width, self.height, buf);
        made.unwrap()
    }
}

/// The bytes of the pixels laid end to end.
pub fn pack(rays: &Vec<[u8; 3]>) -> (buf: Vec<u8>)
    ensures
        buf@ == packed(rays@),
{
    let mut buf: Vec<u8> = Vec::new();
    let mut i: usize = 0;
    while i < rays.len()
        invariant
            i <= rays@.len(),
            buf@.len() == 3 * i,
            forall|j: int| 0 <= j < 3 * i ==> #[trigger] buf@[j] == rays@[j / 3][j % 3],
        decreases rays@.len() - i,
    {
        let px = rays[i];
        buf.push(px[0]);
        buf.push(px[1]);
        buf.push(px[2]);
        i += 1;
    }
    assert(buf@ =~= packed(rays@));
    buf
}

impl Default for Scene {
    /// The scene that nothing has been put into yet: the camera at the
    /// origin, looking along z with y up and a half angle of 45 degrees; 640
    /// by 480 pixels; no light, no object, all colours black.
    fn default() -> (s: Scene)
        ensures
            s.camera_position == (Vector3 {
                x: Scalar::zero(),
                y: Scalar::zero(),
                z: Scalar::zero(),
            }),
            s.camera_direction == (Vector3 {
                x: Scalar::zero(),
                y: Scalar::zero(),
                z: Scalar::one(),
            }),
            s.camera_up == (Vector3 { x: Scalar::zero(), y: Scalar::one(), z: Scalar::zero() }),
            s.camera_half_angle_tan == Scalar::one(),
            s.width == 640,
            s.height == 480,
            s.output_image is None,
            s.ambient_light == Color::black(),
            s.background == Color::black(),
            s.lights@.len() == 0,
            s.objects@.len() == 0,
            s.max_collisions == 5,
            s.well_formed(),
    {
        proof {
            lemma_ordinal_orders(Scalar::one(), Scalar::zero());
        }
        Scene {
            camera_position: Vector3::from_bits(0, 0, 0),
            camera_direction: Vector3::from_bits(0, 0, ONE_BITS),
            camera_up: Vector3::from_bits(0, ONE_BITS, 0),
            camera_half_angle_tan: Scalar::one(),
            width: 640,
            height: 480,
            output_image: None,
            ambient_light: Color::black(),
            background: Color::black(),
            lights: Vec::new(),
            objects: Vec::new(),
            max_collisions: 5,
        }
    }
}

} // verus!
