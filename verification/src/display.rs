//! The display list: the geometry of the attached screens, and the choice
//! of the largest one for placing the overlay.

use vstd::prelude::*;
use crate::error::Error;

verus! {

/// One attached display's geometry.
pub struct Display {
    pub name: String,
    pub x: i32,
    pub y: i32,
    pub height: i32,
    pub width: i32,
}

/// The running choice of the largest display, scanned in order: a display
/// strictly wider than every one before it takes over, sized — as the
/// daemon sizes them — by the square of its width.
pub open spec fn spec_largest_scan(
    ds: Seq<Display>,
    i: int,
    size: int,
    best: Option<(i32, i32, i32, i32)>,
) -> Option<(i32, i32, i32, i32)>
    decreases ds.len() - i,
{
    if i < 0 || i >= ds.len() {
        best
    } else {
        let px = (ds[i].width as int) * (ds[i].width as int);
        if px > size {
            spec_largest_scan(ds, i + 1, px, Some((ds[i].x, ds[i].y, ds[i].width, ds[i].height)))
        } else {
            spec_largest_scan(ds, i + 1, size, best)
        }
    }
}

/// Picks the largest display: its position and its measures.  Fails with
/// `NoScreenFound` exactly when no display has a positive size.
pub fn get_largest_window(displays: &Vec<Display>) -> (r: Result<((i32, i32), (i32, i32)), Error>)
    requires
        forall|i: int| 0 <= i < displays@.len() ==> (#[trigger] displays@[i]).width >= 0,
    ensures
        match r {
            Ok(((x, y), (w, h))) => spec_largest_scan(displays@, 0, 0, None)
                == Some((x, y, w, h)),
            Err(e) => e == Error::NoScreenFound
                && spec_largest_scan(displays@, 0, 0, None) is None,
        },
{
    let n = displays.len();
    let mut best: Option<((i32, i32), (i32, i32))> = None;
    let mut size: u64 = 0;
    let mut i: usize = 0;
    while i < n
        invariant
            i <= n == displays@.len(),
            forall|j: int| 0 <= j < n ==> (#[trigger] displays@[j]).width >= 0,
            size <= 0x7fffffff * 0x7fffffff,
            spec_largest_scan(displays@, 0, 0, None) == spec_largest_scan(
                displays@,
                i as int,
                size as int,
                match best {
                    Some(((x, y), (w, h))) => Some((x, y, w, h)),
                    None => None,
                },
            ),
        decreases n - i,
    {
        let d = &displays[i];
        proof {
            assert((d.width as int) * (d.width as int) <= 0x7fffffff * 0x7fffffff)
                by (nonlinear_arith)
                requires
                    0 <= d.width <= 0x7fffffff,
            ;
        }
        let px: u64 = (d.width as u64) * (d.width as u64);
        if px > size {
            size = px;
            best = Some(((d.x, d.y), (d.width, d.height)));
        }
        i = i + 1;
    }
    match best {
        Some(b) => Ok(b),
        None => Err(Error::NoScreenFound),
    }
}

} // verus!
