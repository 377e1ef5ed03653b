use light_editor::color::{from_edit, to_edit, Channel, EditColor, LinearColor};

fn gray(num: u32, den: u32) -> LinearColor {
    LinearColor {
        red: Channel { num, den },
        green: Channel { num, den },
        blue: Channel { num, den },
    }
}

#[test]
fn quantize_is_floor_not_round() {
    // 1/2 * 255 = 127.5 floors to 127; round-to-nearest would give 128.
    let e = to_edit(&LinearColor {
        red: Channel { num: 1, den: 2 },
        green: Channel { num: 1, den: 3 },
        blue: Channel { num: 2, den: 3 },
    });
    assert_eq!(e.red, 127);
    assert_eq!(e.green, 85);
    assert_eq!(e.blue, 170);
}

#[test]
fn channel_exactly_one_maps_to_255() {
    assert_eq!((255.0f32).floor(), 255.0);
    let e = to_edit(&LinearColor {
        red: Channel { num: 1, den: 1 },
        green: Channel { num: 255, den: 255 },
        blue: Channel { num: 7, den: 7 },
    });
    assert_eq!(
        e,
        EditColor { red: 255, green: 255, blue: 255 }
    );
}

#[test]
fn channel_below_one_maps_below_255() {
    for den in 1u32..40 {
        for num in 0..den {
            let e = to_edit(&gray(num, den));
            assert!(e.red <= 254);
        }
    }
}

#[test]
fn requantize_is_stable_on_every_edit_value() {
    for r in 0u16..=255 {
        let e = EditColor {
            red: r as u8,
            green: (255 - r) as u8,
            blue: (r / 2) as u8,
        };
        let c = from_edit(e);
        assert_eq!(to_edit(&c), e);
        // and once quantized, a second decode/encode cycle is a no-op too
        assert_eq!(to_edit(&from_edit(to_edit(&c))), e);
    }
}

#[test]
fn ratio_floor_agrees_with_float_floor_on_edit_values() {
    for k in 0u16..=255 {
        let k = k as u8;
        let e = EditColor { red: k, green: k, blue: k };
        let float_channel = k as f32 / 255.0;
        let float_floor = (float_channel * 255.0).floor() as u8;
        assert_eq!(to_edit(&from_edit(e)).red, float_floor);
    }
}
