//! Wind bearings in degrees, named as the sixteen Swedish compass points.

use vstd::prelude::*;

verus! {

/// Label returned for a bearing outside `0..=360`.
pub open spec fn unknown_direction() -> Seq<char> {
    "Error med att hämta vindriktingen"@
}

/// The label of bearing `d`: sixteen points on fixed inclusive ranges, where a
/// boundary value belongs to the lower range; anything outside `0..=360` gets
/// `unknown_direction()`.
pub open spec fn compass_label(d: int) -> Seq<char> {
    if d < 0 || d > 360 {
        unknown_direction()
    } else if d <= 21 {
        "Nord"@
    } else if d <= 43 {
        "Nord Nordöst"@
    } else if d <= 45 {
        "Nordöst"@
    } else if d <= 66 {
        "Öst Nordöst"@
    } else if d <= 111 {
        "Öst"@
    } else if d <= 133 {
        "Öst Sydöst"@
    } else if d <= 135 {
        "Sydöst"@
    } else if d <= 156 {
        "Syd Sydöst"@
    } else if d <= 201 {
        "Syd"@
    } else if d <= 223 {
        "Syd Sydväst"@
    } else if d <= 225 {
        "Sydväst"@
    } else if d <= 246 {
        "Väst Sydväst"@
    } else if d <= 291 {
        "Väst"@
    } else if d <= 313 {
        "West Nordväst"@
    } else if d <= 315 {
        "Nordväst"@
    } else if d <= 336 {
        "Nord Nordväst"@
    } else {
        "Nord"@
    }
}

/// The sixteen compass-point labels.
pub open spec fn is_compass_point(s: Seq<char>) -> bool {
    ||| s == "Nord"@
    ||| s == "Nord Nordöst"@
    ||| s == "Nordöst"@
    ||| s == "Öst Nordöst"@
    ||| s == "Öst"@
    ||| s == "Öst Sydöst"@
    ||| s == "Sydöst"@
    ||| s == "Syd Sydöst"@
    ||| s == "Syd"@
    ||| s == "Syd Sydväst"@
    ||| s == "Sydväst"@
    ||| s == "Väst Sydväst"@
    ||| s == "Väst"@
    ||| s == "West Nordväst"@
    ||| s == "Nordväst"@
    ||| s == "Nord Nordväst"@
}

/// Names the compass point of a wind bearing given in whole degrees.
pub fn degrees_to_compass(deg: i32) -> (r: &'static str)
    ensures
        r@ == compass_label(deg as int),
{
    if deg < 0 || deg > 360 {
        "Error med att hämta vindriktingen"
    } else if deg <= 21 {
        "Nord"
    } else if deg <= 43 {
        "Nord Nordöst"
    } else if deg <= 45 {
        "Nordöst"
    } else if deg <= 66 {
        "Öst Nordöst"
    } else if deg <= 111 {
        "Öst"
    } else if deg <= 133 {
        "Öst Sydöst"
    } else if deg <= 135 {
        "Sydöst"
    } else if deg <= 156 {
        "Syd Sydöst"
    } else if deg <= 201 {
        "Syd"
    } else if deg <= 223 {
        "Syd Sydväst"
    } else if deg <= 225 {
        "Sydväst"
    } else if deg <= 246 {
        "Väst Sydväst"
    } else if deg <= 291 {
        "Väst"
    } else if deg <= 313 {
        "West Nordväst"
    } else if deg <= 315 {
        "Nordväst"
    } else if deg <= 336 {
        "Nord Nordväst"
    } else {
        "Nord"
    }
}

/// The error label is longer than every compass point, so it is none of them.
proof fn lemma_unknown_is_no_compass_point()
    ensures
        !is_compass_point(unknown_direction()),
{
    reveal_strlit("Error med att hämta vindriktingen");
    reveal_strlit("Nord");
    reveal_strlit("Nord Nordöst");
    reveal_strlit("Nordöst");
    reveal_strlit("Öst Nordöst");
    reveal_strlit("Öst");
    reveal_strlit("Öst Sydöst");
    reveal_strlit("Sydöst");
    reveal_strlit("Syd Sydöst");
    reveal_strlit("Syd");
    reveal_strlit("Syd Sydväst");
    reveal_strlit("Sydväst");
    reveal_strlit("Väst Sydväst");
    reveal_strlit("Väst");
    reveal_strlit("West Nordväst");
    reveal_strlit("Nordväst");
    reveal_strlit("Nord Nordväst");
    assert(unknown_direction().len() == 33);
}

/// Every bearing in `0..=360` is named by one of the sixteen compass points,
/// never by the error label.
pub proof fn lemma_bearing_in_range_is_compass_point(d: int)
    requires
        0 <= d <= 360,
    ensures
        is_compass_point(compass_label(d)),
        compass_label(d) != unknown_direction(),
{
    lemma_unknown_is_no_compass_point();
}

/// A bearing below 0 or above 360 is named by the error label, which is no
/// compass point.
pub proof fn lemma_bearing_out_of_range_is_unknown(d: int)
    requires
        d < 0 || d > 360,
    ensures
        compass_label(d) == unknown_direction(),
        !is_compass_point(compass_label(d)),
{
    lemma_unknown_is_no_compass_point();
}

} // verus!
