use sphere_cast::color::{alpha_of, background_color, blue_of, color, green_of, lit_color, red_of};

#[test]
fn packs_black_opaque() {
    assert_eq!(color(0, 0, 0, 255), 0xFF00_0000);
}

#[test]
fn packs_full_red_opaque() {
    assert_eq!(color(255, 0, 0, 255), 0xFFFF_0000);
}

#[test]
fn packs_each_channel_into_its_byte() {
    assert_eq!(color(1, 2, 3, 4), 0x0401_0203);
    assert_eq!(color(0xAB, 0xCD, 0xEF, 0x12), 0x12AB_CDEF);
}

#[test]
fn unpacks_each_byte() {
    let c: u32 = 0x0401_0203;
    assert_eq!(red_of(c), 1);
    assert_eq!(green_of(c), 2);
    assert_eq!(blue_of(c), 3);
    assert_eq!(alpha_of(c), 4);
}

#[test]
fn pack_unpack_round_trips() {
    // A sweep over all four channels; the stride covers 0 and 255.
    let mut r: u16 = 0;
    while r < 256 {
        let mut g: u16 = 0;
        while g < 256 {
            let mut b: u16 = 0;
            while b < 256 {
                let mut a: u16 = 0;
                while a < 256 {
                    let c = color(r as u8, g as u8, b as u8, a as u8);
                    assert_eq!(red_of(c), r as u8);
                    assert_eq!(green_of(c), g as u8);
                    assert_eq!(blue_of(c), b as u8);
                    assert_eq!(alpha_of(c), a as u8);
                    a += 85;
                }
                b += 85;
            }
            g += 85;
        }
        r += 85;
    }
}

#[test]
fn background_is_opaque_black() {
    assert_eq!(background_color(), color(0, 0, 0, 255));
    assert_eq!(background_color(), 0xFF00_0000);
}

#[test]
fn lit_pixel_is_red_only() {
    assert_eq!(lit_color(128), 0xFF80_0000);
    assert_eq!(red_of(lit_color(200)), 200);
    assert_eq!(green_of(lit_color(200)), 0);
    assert_eq!(blue_of(lit_color(200)), 0);
    assert_eq!(alpha_of(lit_color(200)), 255);
}
