//! The texture loader: placeholder contents, the in-place swap on
//! decode completion, and the power-of-two filter choice.

use parametric_surfaces::texture::{
    is_power_of_2, FilterChoice, TextureContents, TextureSlot,
};

#[test]
fn fresh_texture_is_a_1x1_placeholder() {
    let t = TextureSlot::placeholder();
    assert_eq!(t.contents, TextureContents::Placeholder);
    assert_eq!(t.placeholder_pixel(), vec![0u8, 0u8, 0u8, 255u8]);
}

#[test]
fn decode_completion_swaps_contents_in_place() {
    let mut t = TextureSlot::placeholder();
    let choice = t.on_image_loaded(256, 256);
    assert_eq!(t.contents, TextureContents::Image { width: 256, height: 256 });
    assert_eq!(choice, FilterChoice::Mipmap);
}

#[test]
fn power_of_two_dimensions_take_mipmaps() {
    let mut t = TextureSlot::placeholder();
    assert_eq!(t.on_image_loaded(256, 256), FilterChoice::Mipmap);
    assert_eq!(t.on_image_loaded(1, 1), FilterChoice::Mipmap);
    assert_eq!(t.on_image_loaded(64, 128), FilterChoice::Mipmap);
}

#[test]
fn other_dimensions_take_clamp_and_linear() {
    let mut t = TextureSlot::placeholder();
    assert_eq!(t.on_image_loaded(100, 100), FilterChoice::ClampLinear);
    assert_eq!(t.on_image_loaded(256, 100), FilterChoice::ClampLinear);
    assert_eq!(t.on_image_loaded(100, 256), FilterChoice::ClampLinear);
    assert_eq!(t.on_image_loaded(3, 5), FilterChoice::ClampLinear);
}

#[test]
fn power_of_two_test_values() {
    assert!(is_power_of_2(1));
    assert!(is_power_of_2(2));
    assert!(is_power_of_2(64));
    assert!(is_power_of_2(256));
    assert!(is_power_of_2(1 << 31));
    assert!(!is_power_of_2(3));
    assert!(!is_power_of_2(100));
    assert!(!is_power_of_2(255));
    // Zero passes, as the bitwise test `num & (num - 1) == 0` has it.
    assert!(is_power_of_2(0));
}
