use ascii_art::error::RenderError;
use ascii_art::palette::Palette;
use ascii_art::raster::Image;
use ascii_art::render::{
    patch_brightness, render, render_line, Config, DEFAULT_TARGET_HEIGHT, DEFAULT_TARGET_WIDTH,
};
use ascii_art::grid::Grid;
use ascii_art::tone::ToneCurve;

fn curve_for(bias: f64, palette_len: usize) -> ToneCurve {
    let mut levels = [0usize; 256];
    for (brightness, level) in levels.iter_mut().enumerate() {
        let scaled = (brightness as f64 / 255.0).powf(bias) * (palette_len - 1) as f64;
        *level = scaled.round() as usize;
    }
    ToneCurve::new(levels)
}

fn reduced_config(target_width: u32, target_height: u32) -> Config {
    Config {
        target_width,
        target_height,
        palette: Palette::reduced(),
        curve: curve_for(0.8, 14),
    }
}

fn gradient(width: u32, height: u32) -> Image {
    let mut luma = Vec::new();
    for y in 0..height {
        for x in 0..width {
            luma.push(((x * 7 + y * 13) % 256) as u8);
        }
    }
    Image::from_luma(width, height, luma).unwrap()
}

#[test]
fn black_image_renders_densest_glyph() {
    let image = Image::from_luma(8, 8, vec![0u8; 64]).unwrap();
    let lines = render(&image, &reduced_config(2, 2)).unwrap();
    assert_eq!(lines, vec!["$$".to_string(), "$$".to_string()]);
}

#[test]
fn white_image_renders_lightest_glyph() {
    let image = Image::from_luma(8, 8, vec![255u8; 64]).unwrap();
    let lines = render(&image, &reduced_config(2, 2)).unwrap();
    assert_eq!(lines, vec!["  ".to_string(), "  ".to_string()]);
}

#[test]
fn request_taller_than_image_is_limited_to_image() {
    let image = Image::from_luma(100, 50, vec![0u8; 5000]).unwrap();
    let lines = render(&image, &reduced_config(64, 64)).unwrap();
    assert_eq!(lines.len(), 50);
    for line in &lines {
        assert_eq!(line.chars().count(), 100);
    }
}

#[test]
fn zero_width_is_invalid() {
    let image = Image::from_luma(8, 8, vec![0u8; 64]).unwrap();
    assert_eq!(render(&image, &reduced_config(0, 2)), Err(RenderError::InvalidConfiguration));
}

#[test]
fn zero_height_is_invalid() {
    let image = Image::from_luma(8, 8, vec![0u8; 64]).unwrap();
    assert_eq!(render(&image, &reduced_config(2, 0)), Err(RenderError::InvalidConfiguration));
    assert_eq!(render(&image, &reduced_config(0, 0)), Err(RenderError::InvalidConfiguration));
}

#[test]
fn short_palette_is_refused() {
    let image = Image::from_luma(8, 8, vec![0u8; 64]).unwrap();
    let one = Config {
        target_width: 2,
        target_height: 2,
        palette: Palette::new(vec!['#']),
        curve: curve_for(0.8, 14),
    };
    assert_eq!(render(&image, &one), Err(RenderError::EmptyPalette));
    let none = Config {
        target_width: 2,
        target_height: 2,
        palette: Palette::new(Vec::new()),
        curve: curve_for(0.8, 14),
    };
    assert_eq!(render(&image, &none), Err(RenderError::EmptyPalette));
}

#[test]
fn empty_grid_is_refused_before_short_palette() {
    let image = Image::from_luma(8, 8, vec![0u8; 64]).unwrap();
    let config = Config {
        target_width: 0,
        target_height: 2,
        palette: Palette::new(vec!['#']),
        curve: curve_for(0.8, 14),
    };
    assert_eq!(render(&image, &config), Err(RenderError::InvalidConfiguration));
}

#[test]
fn two_glyph_palette_is_enough() {
    let image = Image::from_luma(2, 1, vec![0, 255]).unwrap();
    let config = Config {
        target_width: 2,
        target_height: 1,
        palette: Palette::new(vec!['#', '.']),
        curve: curve_for(0.8, 2),
    };
    assert_eq!(render(&image, &config), Ok(vec!["#.".to_string()]));
}

#[test]
fn rendering_twice_gives_the_same_text() {
    let image = gradient(37, 23);
    let config = reduced_config(10, 7);
    let first = render(&image, &config);
    let second = render(&image, &config);
    assert!(first.is_ok());
    assert_eq!(first, second);
}

#[test]
fn every_glyph_comes_from_the_palette() {
    let image = gradient(40, 30);
    let reduced = "$@%&#/\\|()~,. ";
    for line in render(&image, &reduced_config(13, 9)).unwrap() {
        for glyph in line.chars() {
            assert!(reduced.contains(glyph));
        }
    }
    let extended = Config {
        target_width: 13,
        target_height: 9,
        palette: Palette::extended(),
        curve: curve_for(0.8, 69),
    };
    let all = "$@B%8&WM#*oahkbdpqwmZO0QLCJUYXzcvunxrjft/\\|()1{}[]?-_+~<>i!lI;:,\"^`. ";
    for line in render(&image, &extended).unwrap() {
        for glyph in line.chars() {
            assert!(all.contains(glyph));
        }
    }
}

#[test]
fn line_count_and_length_follow_the_grid() {
    // 10 pixels in 4 cells: patches of 2 pixels, and 5 of them fit.
    // 7 pixels in 3 cells: patches of 2 pixels, and 3 of them fit.
    let image = gradient(10, 7);
    let lines = render(&image, &reduced_config(4, 3)).unwrap();
    assert_eq!(lines.len(), 3);
    for line in &lines {
        assert_eq!(line.chars().count(), 5);
    }
}

#[test]
fn dimensions_match_request_when_it_divides_the_image() {
    let image = gradient(64, 48);
    let lines = render(&image, &reduced_config(16, 12)).unwrap();
    assert_eq!(lines.len(), 12);
    for line in &lines {
        assert_eq!(line.chars().count(), 16);
    }
}

#[test]
fn trailing_pixels_are_left_out() {
    // 5 pixels in 2 cells: patches of 2 pixels, the fifth pixel is in none.
    let image = Image::from_luma(5, 1, vec![0, 0, 255, 255, 0]).unwrap();
    let lines = render(&image, &reduced_config(2, 1)).unwrap();
    assert_eq!(lines, vec!["$ ".to_string()]);
}

#[test]
fn rows_come_top_to_bottom_and_columns_left_to_right() {
    let image = Image::from_luma(2, 2, vec![0, 255, 255, 0]).unwrap();
    let lines = render(&image, &reduced_config(2, 2)).unwrap();
    assert_eq!(lines, vec!["$ ".to_string(), " $".to_string()]);
}

#[test]
fn midtone_glyph_is_exact() {
    // (64 / 255) ^ 0.8 * 13 = 4.30..., which rounds to 4.
    let image = Image::from_luma(1, 1, vec![64]).unwrap();
    let lines = render(&image, &reduced_config(1, 1)).unwrap();
    assert_eq!(lines, vec!["#".to_string()]);
}

#[test]
fn curve_entries_beyond_the_palette_are_held_down() {
    let image = Image::from_luma(2, 1, vec![10, 200]).unwrap();
    let config = Config {
        target_width: 2,
        target_height: 1,
        palette: Palette::reduced(),
        curve: ToneCurve::new([usize::MAX; 256]),
    };
    assert_eq!(render(&image, &config), Ok(vec!["  ".to_string()]));
}

#[test]
fn patch_brightness_is_the_truncated_mean() {
    let image = Image::from_luma(3, 2, vec![1, 2, 9, 3, 5, 9]).unwrap();
    // (1 + 2 + 3 + 5) / 4 = 2.75
    assert_eq!(patch_brightness(&image, 0, 0, 2, 2), 2);
    assert_eq!(patch_brightness(&image, 2, 0, 1, 2), 9);
    assert_eq!(patch_brightness(&image, 1, 1, 2, 1), 7);
    assert_eq!(patch_brightness(&image, 0, 0, 3, 2), 4);
}

#[test]
fn patch_brightness_of_a_large_bright_patch() {
    let image = Image::from_luma(300, 300, vec![255u8; 90000]).unwrap();
    assert_eq!(patch_brightness(&image, 0, 0, 300, 300), 255);
}

#[test]
fn render_line_draws_one_row() {
    let image = Image::from_luma(2, 2, vec![0, 255, 255, 0]).unwrap();
    let config = reduced_config(2, 2);
    let grid = Grid::layout(2, 2, 2, 2).unwrap();
    assert_eq!(render_line(&image, &config, &grid, 0), "$ ");
    assert_eq!(render_line(&image, &config, &grid, 1), " $");
}

#[test]
fn brighter_patches_never_get_denser_glyphs() {
    let luma: Vec<u8> = (0..=255u8).collect();
    let image = Image::from_luma(256, 1, luma).unwrap();
    let line = render(&image, &reduced_config(256, 1)).unwrap().remove(0);
    let reduced = "$@%&#/\\|()~,. ";
    let positions: Vec<usize> = line.chars().map(|glyph| reduced.find(glyph).unwrap()).collect();
    assert_eq!(positions.len(), 256);
    assert_eq!(positions[0], 0);
    assert_eq!(positions[255], 13);
    for pair in positions.windows(2) {
        assert!(pair[0] <= pair[1]);
    }
}

#[test]
fn default_configuration_asks_for_64_by_64() {
    assert_eq!(DEFAULT_TARGET_WIDTH, 64);
    assert_eq!(DEFAULT_TARGET_HEIGHT, 64);
    let config = Config::new(Palette::reduced(), curve_for(0.8, 14));
    assert_eq!(config.target_width, 64);
    assert_eq!(config.target_height, 64);
    let image = Image::from_luma(128, 64, vec![255u8; 128 * 64]).unwrap();
    let lines = render(&image, &config).unwrap();
    assert_eq!(lines.len(), 64);
    for line in &lines {
        assert_eq!(line, &" ".repeat(64));
    }
}

#[test]
fn uniform_patch_has_the_brightness_of_its_pixels() {
    let image = Image::from_luma(6, 4, vec![77u8; 24]).unwrap();
    assert_eq!(patch_brightness(&image, 1, 1, 5, 3), 77);
    assert_eq!(patch_brightness(&image, 0, 0, 6, 4), 77);
}
