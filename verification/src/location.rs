use vstd::prelude::*;

use crate::content::ContentFormat;

verus! {

/// Whether `GeoUri::parse` of `geo-uri` accepts a string.
pub uninterp spec fn geo_uri_valid(s: Seq<char>) -> bool;

/// `geo_uri::GeoUri::parse`: whether the string is a valid `geo:` URI. The
/// contract names the result and states what the source checks first: an
/// accepted string starts with `geo:`, in any ASCII case.
#[verifier::external_body]
fn is_valid_geo_uri(uri: &str) -> (res: bool)
    ensures
        res == geo_uri_valid(uri@),
        res ==> uri@.len() >= 4 && (uri@[0] == 'g' || uri@[0] == 'G') && (uri@[1] == 'e' || uri@[1]
            == 'E') && (uri@[2] == 'o' || uri@[2] == 'O') && uri@[3] == ':',
{
    geo_uri::GeoUri::parse(uri).is_ok()
}

/// How a location message shows.
#[derive(Clone, Copy, Debug, PartialEq, Eq, Structural)]
pub struct LocationView {
    /// Whether the map is small (in a compact or ellipsized format).
    pub compact: bool,
    /// Whether the map shows; otherwise an error icon says that the
    /// location is invalid.
    pub valid: bool,
}

/// How a location message with the given `geo:` URI shows in a format.
pub fn set_geo_uri(uri: &str, format: ContentFormat) -> (res: LocationView)
    ensures
        res == (LocationView { compact: !(format is Natural), valid: geo_uri_valid(uri@) }),
{
    let compact = format == ContentFormat::Compact || format == ContentFormat::Ellipsized;
    LocationView { compact, valid: is_valid_geo_uri(uri) }
}

/// The size that a location message asks for: a small map in the compact
/// format (75 wide, 50 high), a large one otherwise (300).
pub fn measure(compact: bool, horizontal: bool) -> (res: i32)
    ensures
        res == (if compact {
            if horizontal {
                75i32
            } else {
                50i32
            }
        } else {
            300i32
        }),
{
    if compact {
        if horizontal {
            75
        } else {
            50
        }
    } else {
        300
    }
}

/// The width that the map of a location message takes from the width it
/// was given: at most 75 in the compact format.
pub fn allocated_width(compact: bool, width: i32) -> (res: i32)
    ensures
        res == (if compact && width > 75 {
            75
        } else {
            width
        }),
{
    if compact && width > 75 {
        75
    } else {
        width
    }
}

} // verus!
