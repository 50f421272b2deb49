//! The pixel sampler: jittered primary rays per pixel, averaged, gamma-corrected
//! and quantized to 8-bit channels.
use vstd::prelude::*;
use rand::rngs::StdRng;
use vstd::arithmetic::div_mod::{lemma_fundamental_div_mod, lemma_fundamental_div_mod_converse};
use crate::camera::{camera_ray, Camera};
use crate::fixed;
use crate::fixed::{sqrt_spec, tdiv, SCALE};
use crate::random::{seeded_rng, uniform};
use crate::scene::{Object, Scene};
use crate::ray::Ray;
use crate::trace::{is_path, shade_spec, trace};
use crate::vec3::{vadd, Vec3};

verus! {

/// An 8-bit channel for a linear intensity `c`: `floor(sqrt(c) * 255.99)`,
/// clamped to `[0, 255]`.
pub open spec fn channel_spec(c: i64) -> u8 {
    let v = tdiv(sqrt_spec(c) * 25599, 100 * SCALE);
    if v < 0 {
        0
    } else if v > 255 {
        255
    } else {
        v as u8
    }
}

/// The average of `num_samples` colours whose sum is `sum`.
pub open spec fn average_spec(sum: Vec3, num_samples: u32) -> Vec3 {
    Vec3 {
        x: tdiv(sum.x as int, num_samples as int) as i64,
        y: tdiv(sum.y as int, num_samples as int) as i64,
        z: tdiv(sum.z as int, num_samples as int) as i64,
    }
}

pub open spec fn quantize_spec(sum: Vec3, num_samples: u32) -> (u8, u8, u8) {
    let a = average_spec(sum, num_samples);
    (channel_spec(a.x), channel_spec(a.y), channel_spec(a.z))
}

/// Image-plane fraction `(i + xi) / n` of a jittered sample, `xi` in `[0, 1)`.
pub open spec fn fraction_spec(i: u32, n: u32, xi: i64) -> i64 {
    tdiv(i * SCALE + xi, n as int) as i64
}

/// `col` is one sample of pixel `(x, y)` (row 0 at the top): the colour of a
/// path traced from depth 0 along the camera ray through the jittered
/// image-plane point `((x + xs) / w, (h - y + xt) / h)`, for some draws
/// `xs`, `xt` in `[0, 1)`.
pub open spec fn is_pixel_sample(objs: Seq<Object>, cam: Camera, x: u32, y: u32, w: u32, h: u32, col: Vec3) -> bool {
    exists|xs: i64, xt: i64, draws: Seq<(Vec3, i64)>, rays: Seq<Ray>, atts: Seq<Vec3>, c: Vec3|
        0 <= xs < SCALE && 0 <= xt < SCALE && #[trigger] is_path(
            objs,
            sample_ray(cam, x, y, w, h, xs, xt),
            0,
            draws,
            rays,
            atts,
            c,
        ) && col == shade_spec(atts, c)
}

/// The camera ray through the jittered point `((x + xs) / w, (h - y + xt) / h)`.
pub open spec fn sample_ray(cam: Camera, x: u32, y: u32, w: u32, h: u32, xs: i64, xt: i64) -> Ray {
    camera_ray(cam, fraction_spec(x, w, xs), fraction_spec((h - y) as u32, h, xt))
}

/// The saturating sum of colours, first to last.
pub open spec fn sum_spec(cols: Seq<Vec3>) -> Vec3
    decreases cols.len(),
{
    if cols.len() == 0 {
        Vec3 { x: 0, y: 0, z: 0 }
    } else {
        vadd(sum_spec(cols.drop_last()), cols.last())
    }
}

/// `sum` is the sum of `n` samples of pixel `(x, y)`.
pub open spec fn is_pixel_sum(objs: Seq<Object>, cam: Camera, x: u32, y: u32, w: u32, h: u32, n: u32, sum: Vec3) -> bool {
    exists|cols: Seq<Vec3>|
        cols.len() == n && (forall|i: int| 0 <= i < n ==> is_pixel_sample(objs, cam, x, y, w, h, #[trigger] cols[i]))
            && sum == sum_spec(cols)
}

/// The three bytes of pixel index `p` in `buf` are the quantized average of `sum`.
pub open spec fn holds_pixel(buf: Seq<u8>, p: int, sum: Vec3, n: u32) -> bool {
    let q = quantize_spec(sum, n);
    buf[3 * p] == q.0 && buf[3 * p + 1] == q.1 && buf[3 * p + 2] == q.2
}

pub fn to_channel(c: i64) -> (r: u8)
    ensures
        r == channel_spec(c),
{
    let s = fixed::sqrt(c);
    let v = fixed::div_count(s * 25599, 100 * SCALE);
    if v < 0 {
        0
    } else if v > 255 {
        255
    } else {
        v as u8
    }
}

/// The three 8-bit channels of a pixel from the sum of its samples.
pub fn quantize(sum: &Vec3, num_samples: u32) -> (r: (u8, u8, u8))
    requires
        num_samples > 0,
    ensures
        r == quantize_spec(*sum, num_samples),
{
    let n = num_samples as i64;
    let a = Vec3::new(
        fixed::div_count(sum.x, n),
        fixed::div_count(sum.y, n),
        fixed::div_count(sum.z, n),
    );
    (to_channel(a.x), to_channel(a.y), to_channel(a.z))
}

/// With a single sample the pixel is the gamma-corrected, quantized colour of
/// that sample itself.
pub proof fn lemma_single_sample_quantize(c: Vec3)
    ensures
        quantize_spec(c, 1) == (channel_spec(c.x), channel_spec(c.y), channel_spec(c.z)),
{
    assert(average_spec(c, 1) == c);
}

pub fn sample_fraction(i: u32, n: u32, xi: i64) -> (r: i64)
    requires
        n > 0,
        0 <= xi < SCALE,
    ensures
        r == fraction_spec(i, n, xi),
        r >= 0,
{
    let v = i as i64 * SCALE + xi;
    fixed::div_count(v, n as i64)
}

/// The sum of `num_samples` jittered samples of pixel `(x, y)`, row 0 at the top.
fn pixel_sum(
    scene: &Scene,
    camera: &Camera,
    x: u32,
    y: u32,
    width: u32,
    height: u32,
    num_samples: u32,
    rng: &mut StdRng,
) -> (r: Vec3)
    requires
        width > 0,
        height > 0,
        y < height,
    ensures
        is_pixel_sum(scene.view(), *camera, x, y, width, height, num_samples, r),
{
    let mut sum = Vec3::new(0, 0, 0);
    let mut k: u32 = 0;
    let ghost mut cols: Seq<Vec3> = Seq::empty();
    while k < num_samples
        invariant
            width > 0,
            height > 0,
            y < height,
            k <= num_samples,
            cols.len() == k,
            forall|i: int| 0 <= i < k ==> is_pixel_sample(scene.view(), *camera, x, y, width, height, #[trigger] cols[i]),
            sum == sum_spec(cols),
        decreases num_samples - k,
    {
        let xs = uniform(rng);
        let xt = uniform(rng);
        let s = sample_fraction(x, width, xs);
        let t = sample_fraction(height - y, height, xt);
        let ray = camera.ray_for(s, t);
        let col = trace(scene, &ray, 0, rng);
        proof {
            let (draws, rays, atts, c) = choose|draws: Seq<(Vec3, i64)>, rays: Seq<Ray>, atts: Seq<Vec3>, c: Vec3|
                is_path(scene.view(), ray, 0, draws, rays, atts, c) && col == shade_spec(atts, c);
            assert(ray == sample_ray(*camera, x, y, width, height, xs, xt));
            assert(is_path(scene.view(), sample_ray(*camera, x, y, width, height, xs, xt), 0, draws, rays, atts, c));
            assert(is_pixel_sample(scene.view(), *camera, x, y, width, height, col));
            let old_cols = cols;
            cols = cols.push(col);
            assert(cols.drop_last() =~= old_cols);
            assert forall|i: int| 0 <= i < k + 1 implies is_pixel_sample(scene.view(), *camera, x, y, width, height, #[trigger] cols[i]) by {
                if i < k {
                    assert(cols[i] == old_cols[i]);
                }
            }
        }
        sum = sum.add(&col);
        k = k + 1;
    }
    sum
}

/// Renders the scene into a row-major RGB8 buffer, top row first, with the
/// random draws taken from a generator seeded by `seed`. Each pixel holds the
/// quantized average of `num_samples` samples of its own.
pub fn render(
    scene: &Scene,
    camera: &Camera,
    image_width: u32,
    image_height: u32,
    num_samples: u32,
    seed: u64,
) -> (r: Vec<u8>)
    requires
        num_samples > 0,
        3 * image_width * image_height <= usize::MAX,
    ensures
        r@.len() == 3 * image_width * image_height,
        exists|sums: Seq<Vec3>|
            sums.len() == image_width * image_height && forall|x: u32, y: u32|
                x < image_width && y < image_height ==> {
                    &&& is_pixel_sum(
                        scene.view(),
                        *camera,
                        x,
                        y,
                        image_width,
                        image_height,
                        num_samples,
                        #[trigger] sums[y * image_width + x],
                    )
                    &&& holds_pixel(r@, y * image_width + x, sums[y * image_width + x], num_samples)
                },
{
    let mut rng = seeded_rng(seed);
    let mut out: Vec<u8> = Vec::new();
    let w = image_width as usize;
    assert(image_width * image_height <= 3 * image_width * image_height) by (nonlinear_arith);
    let total: usize = w * image_height as usize;
    let ghost mut sums: Seq<Vec3> = Seq::empty();
    let mut p: usize = 0;
    while p < total
        invariant
            total == image_width * image_height,
            w == image_width,
            p <= total,
            out@.len() == 3 * p,
            sums.len() == p,
            num_samples > 0,
            forall|i: int|
                0 <= i < p ==> is_pixel_sum(
                    scene.view(),
                    *camera,
                    (i % (w as int)) as u32,
                    (i / (w as int)) as u32,
                    image_width,
                    image_height,
                    num_samples,
                    #[trigger] sums[i],
                ) && holds_pixel(out@, i, sums[i], num_samples),
        decreases total - p,
    {
        proof {
            lemma_fundamental_div_mod(p as int, w as int);
            let q = p as int / w as int;
            if q >= image_height {
                assert(w * q >= w * image_height) by (nonlinear_arith)
                    requires
                        q >= image_height,
                        w >= 0,
                ;
            }
        }
        let x = (p % w) as u32;
        let y = (p / w) as u32;
        let sum = pixel_sum(scene, camera, x, y, image_width, image_height, num_samples, &mut rng);
        let (r, g, b) = quantize(&sum, num_samples);
        let ghost old_out = out@;
        out.push(r);
        out.push(g);
        out.push(b);
        proof {
            let old_sums = sums;
            sums = sums.push(sum);
            assert forall|i: int| 0 <= i < p + 1 implies is_pixel_sum(
                scene.view(),
                *camera,
                (i % (w as int)) as u32,
                (i / (w as int)) as u32,
                image_width,
                image_height,
                num_samples,
                #[trigger] sums[i],
            ) && holds_pixel(out@, i, sums[i], num_samples) by {
                if i < p {
                    assert(sums[i] == old_sums[i]);
                    assert(out@[3 * i] == old_out[3 * i]);
                    assert(out@[3 * i + 1] == old_out[3 * i + 1]);
                    assert(out@[3 * i + 2] == old_out[3 * i + 2]);
                }
            }
        }
        p = p + 1;
    }
    proof {
        assert(3 * total == 3 * image_width * image_height) by (nonlinear_arith)
            requires
                total == image_width * image_height,
        ;
        assert forall|x: u32, y: u32| x < image_width && y < image_height implies {
            &&& is_pixel_sum(
                scene.view(),
                *camera,
                x,
                y,
                image_width,
                image_height,
                num_samples,
                #[trigger] sums[y * image_width + x],
            )
            &&& holds_pixel(out@, y * image_width + x, sums[y * image_width + x], num_samples)
        } by {
            let i = y * image_width + x;
            assert(y * image_width + x < image_width * image_height) by (nonlinear_arith)
                requires
                    x < image_width,
                    y < image_height,
            ;
            lemma_fundamental_div_mod_converse(i, w as int, y as int, x as int);
        }
    }
    out
}

} // verus!
