//! The window icon: a small picture of the player's buttons and sliders.

use vstd::prelude::*;

verus! {

/// The width and the height of the icon in pixels.
pub const ICON_SIZE: usize = 16;

/// The colours of the icon, each as red, green and blue.
pub struct IconColors {
    /// A button at rest.
    pub button: [u8; 3],
    /// A button under the pointer.
    pub button_hover: [u8; 3],
    /// The loop button at rest.
    pub loop_button: [u8; 3],
    /// A slider at rest.
    pub slider: [u8; 3],
    /// A slider under the pointer.
    pub slider_hover: [u8; 3],
}

/// The colour of the pixel in row `row` and column `col`, rows counted
/// from the top. The icon has four bands of four rows: a row of buttons
/// with the loop button third, a hovered slider a quarter full, a slider
/// three quarters full, and a slider a quarter full.
pub open spec fn icon_color(colors: IconColors, row: int, col: int) -> [u8; 3] {
    if row < 4 {
        if 8 <= col < 12 {
            colors.loop_button
        } else {
            colors.button
        }
    } else if row < 8 {
        if col < 4 {
            colors.slider_hover
        } else {
            colors.button_hover
        }
    } else if row < 12 {
        if col < 12 {
            colors.slider
        } else {
            colors.button
        }
    } else {
        if col < 4 {
            colors.slider
        } else {
            colors.button
        }
    }
}

/// The byte at `index` of the icon's data: four bytes a pixel, red, green,
/// blue and an opacity that is always full, the pixels row by row.
pub open spec fn icon_byte(colors: IconColors, index: int) -> u8 {
    let pixel = index / 4;
    let part = index % 4;
    if part == 3 {
        255u8
    } else {
        icon_color(colors, pixel / (ICON_SIZE as int), pixel % (ICON_SIZE as int))@[part]
    }
}

/// The icon's pixel data in the given colours.
pub fn create_icon_data(colors: &IconColors) -> (r: Vec<u8>)
    ensures
        r@.len() == ICON_SIZE * ICON_SIZE * 4,
        forall|i: int| 0 <= i < r@.len() ==> r@[i] == icon_byte(*colors, i),
{
    let mut data: Vec<u8> = Vec::new();
    let mut row: usize = 0;
    while row < ICON_SIZE
        invariant
            row <= ICON_SIZE,
            data@.len() == row * ICON_SIZE * 4,
            forall|i: int| 0 <= i < data@.len() ==> data@[i] == icon_byte(*colors, i),
        decreases ICON_SIZE - row,
    {
        let mut col: usize = 0;
        while col < ICON_SIZE
            invariant
                row < ICON_SIZE,
                col <= ICON_SIZE,
                data@.len() == (row * ICON_SIZE + col) * 4,
                forall|i: int| 0 <= i < data@.len() ==> data@[i] == icon_byte(*colors, i),
            decreases ICON_SIZE - col,
        {
            let color: [u8; 3] = if row < 4 {
                if 8 <= col && col < 12 {
                    colors.loop_button
                } else {
                    colors.button
                }
            } else if row < 8 {
                if col < 4 {
                    colors.slider_hover
                } else {
                    colors.button_hover
                }
            } else if row < 12 {
                if col < 12 {
                    colors.slider
                } else {
                    colors.button
                }
            } else {
                if col < 4 {
                    colors.slider
                } else {
                    colors.button
                }
            };
            assert(color == icon_color(*colors, row as int, col as int));
            data.push(color[0]);
            data.push(color[1]);
            data.push(color[2]);
            data.push(255);
            col = col + 1;
        }
        row = row + 1;
    }
    data
}

} // verus!
