use vstd::prelude::*;

verus! {

/// A solid fill color: three 8-bit channels.
#[derive(Clone, Copy, Debug, PartialEq, Eq, Structural)]
pub struct Rgb {
    pub r: u8,
    pub g: u8,
    pub b: u8,
}

/// The random palette stays below 255 on every channel: each one is
/// sampled from the half-open range [0, 255).
pub open spec fn valid_rgb(c: Rgb) -> bool {
    c.r < 255 && c.g < 255 && c.b < 255
}

/// Relies on rand::Rng::gen_range over the non-empty half-open range
/// 0..255: the sample lies in that range, so it is at most 254.
#[verifier::external_body]
fn random_channel() -> (c: u8)
    ensures
        c < 255,
{
    let mut rng = rand::thread_rng();
    rand::Rng::gen_range(&mut rng, 0..255)
}

/// Sample one color, each channel drawn independently and uniformly
/// from [0, 255).
pub fn random_rgb() -> (c: Rgb)
    ensures
        valid_rgb(c),
{
    Rgb { r: random_channel(), g: random_channel(), b: random_channel() }
}

} // verus!
