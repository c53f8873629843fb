//! Texture loading.
//!
//! A texture starts life as a single opaque placeholder pixel, so
//! every draw call has valid bound contents even before the real
//! image arrives.  The image decodes asynchronously; when the host
//! reports completion, the same texture object (the handle never
//! changes) takes the decoded contents, with mipmaps when both
//! dimensions are powers of two and clamp-to-edge plus linear
//! minification otherwise.  A decode that never completes simply
//! leaves the placeholder in place.

use vstd::prelude::*;

verus! {

/// Whether a number is a power of two.
pub open spec fn is_power_of_two(n: nat) -> bool
    decreases n,
{
    if n == 0 {
        false
    } else if n == 1 {
        true
    } else {
        n % 2 == 0 && is_power_of_two(n / 2)
    }
}

/// Whether `num` passes the power-of-two test used for mipmap
/// selection.  Zero passes the test too, as the bitwise form
/// `num & (num - 1) == 0` has it.
pub fn is_power_of_2(num: u32) -> (r: bool)
    ensures
        r == (num == 0 || is_power_of_two(num as nat)),
{
    if num == 0 {
        return true;
    }
    let mut n: u32 = num;
    while n % 2 == 0
        invariant
            n >= 1,
            is_power_of_two(n as nat) == is_power_of_two(num as nat),
        decreases n,
    {
        n = n / 2;
    }
    n == 1
}

/// What a texture currently holds.
#[derive(Clone, Copy, Debug, PartialEq, Eq, Structural)]
pub enum TextureContents {
    /// The 1x1 opaque placeholder pixel.
    Placeholder,
    /// The decoded image, of these dimensions in pixels.
    Image { width: u32, height: u32 },
}

/// The sampling setup chosen when decoded contents arrive.
#[derive(Clone, Copy, Debug, PartialEq, Eq, Structural)]
pub enum FilterChoice {
    /// Generate mipmaps: both dimensions are powers of two.
    Mipmap,
    /// Clamp to edge on both axes and minify linearly: required
    /// because non-power-of-two textures cannot mipmap under the
    /// fixed capability profile.
    ClampLinear,
}

/// A texture object's contents over its lifetime.  The handle
/// identity never changes; only the contents do.
#[derive(Clone, Copy, Debug, PartialEq, Eq, Structural)]
pub struct TextureSlot {
    pub contents: TextureContents,
}

/// The width, in pixels, of what the texture currently holds.
pub open spec fn texture_width(t: TextureSlot) -> nat {
    match t.contents {
        TextureContents::Placeholder => 1,
        TextureContents::Image { width, .. } => width as nat,
    }
}

/// The height, in pixels, of what the texture currently holds.
pub open spec fn texture_height(t: TextureSlot) -> nat {
    match t.contents {
        TextureContents::Placeholder => 1,
        TextureContents::Image { height, .. } => height as nat,
    }
}

/// The filter setup an image of these dimensions gets.
pub open spec fn filter_choice_spec(width: u32, height: u32) -> FilterChoice {
    if is_power_of_two(width as nat) && is_power_of_two(height as nat) {
        FilterChoice::Mipmap
    } else {
        FilterChoice::ClampLinear
    }
}

impl TextureSlot {
    /// A freshly created texture: 1x1 placeholder contents.
    pub fn placeholder() -> (t: TextureSlot)
        ensures
            t.contents == TextureContents::Placeholder,
            texture_width(t) == 1,
            texture_height(t) == 1,
    {
        TextureSlot { contents: TextureContents::Placeholder }
    }

    /// The bytes of the placeholder pixel: one opaque black RGBA
    /// pixel.
    pub fn placeholder_pixel(&self) -> (p: Vec<u8>)
        ensures
            p@ == seq![0u8, 0u8, 0u8, 255u8],
    {
        let mut p: Vec<u8> = Vec::new();
        p.push(0);
        p.push(0);
        p.push(0);
        p.push(255);
        proof {
            assert(p@ =~= seq![0u8, 0u8, 0u8, 255u8]);
        }
        p
    }

    /// Takes the decoded image into the same texture object and
    /// decides its filtering: mipmaps exactly when both dimensions
    /// are powers of two, clamp-to-edge with linear minification
    /// otherwise.  A decoded image has at least one pixel each way.
    pub fn on_image_loaded(&mut self, width: u32, height: u32) -> (choice: FilterChoice)
        requires
            width > 0,
            height > 0,
        ensures
            final(self).contents == (TextureContents::Image { width, height }),
            choice == filter_choice_spec(width, height),
    {
        self.contents = TextureContents::Image { width, height };
        let w_pot = is_power_of_2(width);
        let h_pot = is_power_of_2(height);
        if w_pot && h_pot {
            FilterChoice::Mipmap
        } else {
            FilterChoice::ClampLinear
        }
    }
}

} // verus!
