use yee_player::icon::{create_icon_data, IconColors, ICON_SIZE};

fn byte(level: f32) -> u8 {
    (level * 255.0) as u8
}

fn colors() -> IconColors {
    IconColors {
        button: [byte(0.0), byte(0.27), byte(0.5)],
        button_hover: [byte(0.6), byte(0.9), byte(1.0)],
        loop_button: [byte(0.8), byte(0.5), byte(0.0)],
        slider: [byte(0.8), byte(0.5), byte(0.1)],
        slider_hover: [byte(0.9), byte(0.8), byte(0.5)],
    }
}

#[test]
fn icon_has_four_bytes_a_pixel() {
    let data = create_icon_data(&colors());
    assert_eq!(ICON_SIZE, 16);
    assert_eq!(data.len(), 16 * 16 * 4);
    for pixel in 0..256 {
        assert_eq!(data[pixel * 4 + 3], 255);
    }
}

#[test]
fn icon_levels_are_scaled_to_bytes() {
    let c = colors();
    assert_eq!(c.button, [0, 68, 127]);
    assert_eq!(c.button_hover, [153, 229, 255]);
    assert_eq!(c.loop_button, [204, 127, 0]);
}

#[test]
fn icon_is_painted_in_four_bands() {
    let c = colors();
    let (nb, nh, lb, sb, sh) = (
        c.button,
        c.button_hover,
        c.loop_button,
        c.slider,
        c.slider_hover,
    );
    let rows: [[[u8; 3]; 16]; 4] = [
        [
            nb, nb, nb, nb, nb, nb, nb, nb, lb, lb, lb, lb, nb, nb, nb, nb,
        ],
        [
            sh, sh, sh, sh, nh, nh, nh, nh, nh, nh, nh, nh, nh, nh, nh, nh,
        ],
        [
            sb, sb, sb, sb, sb, sb, sb, sb, sb, sb, sb, sb, nb, nb, nb, nb,
        ],
        [
            sb, sb, sb, sb, nb, nb, nb, nb, nb, nb, nb, nb, nb, nb, nb, nb,
        ],
    ];
    let data = create_icon_data(&c);
    for row in 0..16 {
        for col in 0..16 {
            let at = (row * 16 + col) * 4;
            let want = rows[row / 4][col];
            assert_eq!(
                [data[at], data[at + 1], data[at + 2]],
                want,
                "row {} column {}",
                row,
                col
            );
        }
    }
}
