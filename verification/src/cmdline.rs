//! Position-specification arithmetic: turning a `%P` percentage or an
//! absolute coordinate into the clamped screen position of the overlay.

use vstd::prelude::*;
use crate::error::Error;
use crate::strutil::{all_digits, parse_decimal, spec_dec_value};

verus! {

/// The coordinate a position specification names, before clamping: a `%P`
/// text takes `P` percent of the screen measure, anything else must be an
/// absolute coordinate that fits the measure's type.  `None` where the
/// number does not parse.
pub open spec fn spec_position_value(v: Seq<char>, screen_measure: u16) -> Option<u16> {
    if v.len() > 0 && v[0] == '%' {
        let rest = v.skip(1);
        if rest.len() > 0 && all_digits(rest) && spec_dec_value(rest) <= u64::MAX {
            Some((((screen_measure as nat) * spec_dec_value(rest)) / 100) as u16)
        } else {
            None
        }
    } else {
        if v.len() > 0 && all_digits(v) && spec_dec_value(v) <= u16::MAX {
            Some(spec_dec_value(v) as u16)
        } else {
            None
        }
    }
}

/// The clamped position: the named coordinate, centred by half the window
/// measure, held within `[0, screen - measure]` and within the coordinate
/// type's range.
pub open spec fn spec_clamped_position(pos: u16, measure: u16, screen_measure: u16) -> i16 {
    let centred = pos as int - (measure as int) / 2;
    let cap = if screen_measure >= measure {
        (screen_measure - measure) as int
    } else {
        0
    };
    let low = if centred < cap { centred } else { cap };
    let held = if low > 0 { low } else { 0 };
    (if held > 32767 { 32767int } else { held }) as i16
}

/// Resolves a position specification against a window measure and the
/// screen measure.  Fails exactly when the number does not parse.
pub fn parse_position(v: &str, measure: u16, screen_measure: u16) -> (r: Result<i16, Error>)
    ensures
        match r {
            Ok(p) => spec_position_value(v@, screen_measure) is Some
                && p == spec_clamped_position(
                    spec_position_value(v@, screen_measure)->0,
                    measure,
                    screen_measure,
                ),
            Err(e) => e == Error::NumberParse
                && spec_position_value(v@, screen_measure) is None,
        },
{
    let n = v.unicode_len();
    let pos: u16 = if n > 0 && v.get_char(0) == '%' {
        let rest = v.substring_char(1, n);
        match parse_decimal(rest) {
            Some(percent) => {
                proof {
                    assert((screen_measure as int) * (percent as int) < 0x10000 * 0x10000000000000000)
                        by (nonlinear_arith)
                        requires
                            0 <= screen_measure < 0x10000,
                            0 <= percent < 0x10000000000000000,
                    ;
                }
                let product = (screen_measure as u128) * (percent as u128);
                #[verifier::truncate]
                let scaled = (product / 100) as u16;
                scaled
            },
            None => {
                return Err(Error::NumberParse);
            },
        }
    } else {
        if n == 0 {
            return Err(Error::NumberParse);
        }
        match parse_decimal(v) {
            Some(value) => {
                if value > 0xffff {
                    return Err(Error::NumberParse);
                }
                value as u16
            },
            None => {
                return Err(Error::NumberParse);
            },
        }
    };
    let centred: i32 = pos as i32 - (measure as i32) / 2;
    let cap: i32 = if screen_measure >= measure {
        (screen_measure - measure) as i32
    } else {
        0
    };
    let low: i32 = if centred < cap {
        centred
    } else {
        cap
    };
    let clamped: i32 = if low > 0 {
        low
    } else {
        0
    };
    let held: i32 = if clamped > 32767 {
        32767
    } else {
        clamped
    };
    Ok(held as i16)
}

} // verus!
