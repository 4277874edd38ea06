//! The response headers attached to every asset.

use vstd::prelude::*;

verus! {

/// A header as a pair of character sequences: its name and its value.
pub type HeaderText = (Seq<char>, Seq<char>);

/// The security headers that every asset carries, in the order in which they
/// are sent.
pub open spec fn security_headers() -> Seq<HeaderText> {
    seq![
        ("strict-transport-security"@, "max-age=31536000; includeSubDomains"@),
        ("x-frame-options"@, "DENY"@),
        ("x-content-type-options"@, "nosniff"@),
        (
            "content-security-policy"@,
            "default-src 'self'; img-src 'self' data:; form-action 'self'; object-src 'none'; frame-ancestors 'none'; upgrade-insecure-requests; block-all-mixed-content"@,
        ),
        ("referrer-policy"@, "no-referrer"@),
        (
            "permissions-policy"@,
            "accelerometer=(),ambient-light-sensor=(),autoplay=(),battery=(),camera=(),display-capture=(),document-domain=(),encrypted-media=(),fullscreen=(),gamepad=(),geolocation=(),gyroscope=(),layout-animations=(self),legacy-image-formats=(self),magnetometer=(),microphone=(),midi=(),oversized-images=(self),payment=(),picture-in-picture=(),publickey-credentials-get=(),speaker-selection=(),sync-xhr=(self),unoptimized-images=(self),unsized-media=(self),usb=(),screen-wake-lock=(),web-share=(),xr-spatial-tracking=()"@,
        ),
        ("cross-origin-embedder-policy"@, "require-corp"@),
        ("cross-origin-opener-policy"@, "same-origin"@),
    ]
}

/// Builds one header from two string slices.
pub fn header(name: &str, value: &str) -> (field: (String, String))
    ensures
        field.0@ == name@,
        field.1@ == value@,
{
    (name.to_owned(), value.to_owned())
}

/// The headers of an asset: the security headers first, then
/// `additional_headers` in the order given.
pub fn get_asset_headers(additional_headers: Vec<(String, String)>) -> (headers: Vec<
    (String, String),
>)
    ensures
        headers.deep_view() == security_headers() + additional_headers.deep_view(),
{
    let mut additional = additional_headers;
    let mut headers: Vec<(String, String)> = Vec::new();
    headers.push(header("strict-transport-security", "max-age=31536000; includeSubDomains"));
    headers.push(header("x-frame-options", "DENY"));
    headers.push(header("x-content-type-options", "nosniff"));
    headers.push(
        header(
            "content-security-policy",
            "default-src 'self'; img-src 'self' data:; form-action 'self'; object-src 'none'; frame-ancestors 'none'; upgrade-insecure-requests; block-all-mixed-content",
        ),
    );
    headers.push(header("referrer-policy", "no-referrer"));
    headers.push(
        header(
            "permissions-policy",
            "accelerometer=(),ambient-light-sensor=(),autoplay=(),battery=(),camera=(),display-capture=(),document-domain=(),encrypted-media=(),fullscreen=(),gamepad=(),geolocation=(),gyroscope=(),layout-animations=(self),legacy-image-formats=(self),magnetometer=(),microphone=(),midi=(),oversized-images=(self),payment=(),picture-in-picture=(),publickey-credentials-get=(),speaker-selection=(),sync-xhr=(self),unoptimized-images=(self),unsized-media=(self),usb=(),screen-wake-lock=(),web-share=(),xr-spatial-tracking=()",
        ),
    );
    headers.push(header("cross-origin-embedder-policy", "require-corp"));
    headers.push(header("cross-origin-opener-policy", "same-origin"));
    assert(headers.deep_view() =~= security_headers());
    let ghost fixed = headers.deep_view();
    let ghost rest = additional.deep_view();
    headers.append(&mut additional);
    assert(headers.deep_view() =~= fixed + rest);
    headers
}

} // verus!
