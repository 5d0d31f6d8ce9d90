//! Colour of the tray ring.
use vstd::prelude::*;

use crate::config::Config;
use crate::json::PER_PERCENT;

verus! {

/// Width and height of the tray icon, in pixels.
pub const SIZE: u32 = 32;

/// The RGBA colour of the ring: gray on error, red from the red threshold
/// on, amber from the yellow threshold on, green below. `util` is in
/// millionths of a percent, the thresholds in whole percent.
pub open spec fn ring_color(util: Option<u32>, yellow_at: u8, red_at: u8) -> Seq<u8> {
    match util {
        None => seq![128u8, 128u8, 128u8, 255u8],
        Some(u) => if u >= red_at * PER_PERCENT {
            seq![239u8, 68u8, 68u8, 255u8]
        } else if u >= yellow_at * PER_PERCENT {
            seq![245u8, 158u8, 11u8, 255u8]
        } else {
            seq![16u8, 185u8, 129u8, 255u8]
        },
    }
}

/// Ring colour for a share used (millionths of a percent); gray on error.
pub fn color(util: Option<u32>, cfg: &Config) -> (r: [u8; 4])
    ensures
        r@ == ring_color(util, cfg.icon_yellow_at, cfg.icon_red_at),
{
    let r = match util {
        None => [128u8, 128, 128, 255],
        Some(u) => if u >= (cfg.icon_red_at as u32) * PER_PERCENT {
            [239u8, 68, 68, 255]
        } else if u >= (cfg.icon_yellow_at as u32) * PER_PERCENT {
            [245u8, 158, 11, 255]
        } else {
            [16u8, 185, 129, 255]
        },
    };
    assert(r@ =~= ring_color(util, cfg.icon_yellow_at, cfg.icon_red_at));
    r
}

} // verus!
