//! Wheel zoom of the controller's third-person camera.
use vstd::prelude::*;

use crate::camera::zoom::scrolled_radius;
use crate::fixed::{clamp, clamp_i128, div_floor};
use crate::player::camera::CameraController;

verus! {

/// Orbit distance bounded by `[min, max]`, in thousandths of a unit.
pub struct Zoom {
    pub min: i32,
    pub max: i32,
    pub radius: i32,
}

impl Zoom {
    /// The bounds are ordered and the radius lies within them.
    pub open spec fn wf(&self) -> bool {
        self.min <= self.radius <= self.max
    }

    /// A zoom between `min` and `max`, half-way between them.
    pub open spec fn new_spec(min: i32, max: i32) -> Zoom {
        Zoom { min, max, radius: ((min + max) / 2) as i32 }
    }

    /// A zoom between `min` and `max`, starting half-way between them.
    pub fn new(min: i32, max: i32) -> (r: Zoom)
        requires
            min <= max,
        ensures
            r.wf(),
            r == Zoom::new_spec(min, max),
    {
        let radius = div_floor(min as i128 + max as i128, 2) as i32;
        Zoom { min, max, radius }
    }
}

/// Zooms the controller's camera by the wheel motion `scroll` (thousandths of
/// a line): nothing in first person or without motion, else the radius is
/// scaled by `1 - scroll * 0.1 * zoom_sensitivity` and clamped to the bounds.
pub fn zoom(cam: &mut CameraController, scroll: i32)
    requires
        old(cam).zoom.wf(),
    ensures
        final(cam).zoom.wf(),
        old(cam).is_first_person || scroll == 0 ==> *final(cam) == *old(cam),
        !old(cam).is_first_person && scroll != 0 ==> *final(cam) == (CameraController {
            zoom: Zoom {
                radius: clamp(
                    scrolled_radius(
                        old(cam).zoom.radius as int,
                        scroll as int,
                        old(cam).zoom_sensitivity as int,
                    ),
                    old(cam).zoom.min as int,
                    old(cam).zoom.max as int,
                ) as i32,
                ..old(cam).zoom
            },
            ..*old(cam)
        }),
{
    if cam.is_first_person {
        return;
    }
    if scroll != 0 {
        let s = scroll as i128;
        let r = cam.zoom.radius as i128;
        let k = cam.zoom_sensitivity as i128;
        proof {
            crate::fixed::lemma_product_bound(s as int, r as int, 0x8000_0000int, 0x8000_0000int);
            crate::fixed::lemma_product_bound(
                s * r,
                k as int,
                0x4000_0000_0000_0000int,
                0x8000_0000int,
            );
        }
        let d = div_floor(s * r * k, 10_000_000);
        proof {
            assert(-0x2000_0000_0000_0000_0000_0000 <= d <= 0x2000_0000_0000_0000_0000_0000)
                by (nonlinear_arith)
                requires
                    -0x2000_0000_0000_0000_0000_0000 <= s * r * k <= 0x2000_0000_0000_0000_0000_0000,
                    d == (s * r * k) / 10_000_000,
            ;
        }
        cam.zoom.radius = clamp_i128(r - d, cam.zoom.min as i128, cam.zoom.max as i128) as i32;
    }
}

} // verus!
