use jpng::raster::{composite, LumaRaster, RgbaRaster};

fn rgba(width: u32, height: u32, data: Vec<u8>) -> RgbaRaster {
    RgbaRaster { width, height, data }
}

fn luma(width: u32, height: u32, data: Vec<u8>) -> LumaRaster {
    LumaRaster { width, height, data }
}

#[test]
fn composite_two_by_two() {
    let base = rgba(
        2,
        2,
        vec![10, 11, 12, 255, 20, 21, 22, 255, 30, 31, 32, 255, 40, 41, 42, 255],
    );
    let mask = luma(2, 2, vec![0, 85, 170, 254]);
    let out = composite(&base, &mask);
    assert_eq!(out.width, 2);
    assert_eq!(out.height, 2);
    assert_eq!(
        out.data,
        vec![10, 11, 12, 0, 20, 21, 22, 85, 30, 31, 32, 170, 40, 41, 42, 254]
    );
}

#[test]
fn composite_alpha_is_mask_and_colour_is_base() {
    let (width, height) = (7u32, 5u32);
    let pixels = (width * height) as usize;
    let base_data: Vec<u8> = (0..pixels * 4).map(|k| (k * 7 % 251) as u8).collect();
    let mask_data: Vec<u8> = (0..pixels).map(|p| (p * 13 % 256) as u8).collect();
    let base = rgba(width, height, base_data.clone());
    let mask = luma(width, height, mask_data.clone());
    let out = composite(&base, &mask);
    assert_eq!((out.width, out.height), (width, height));
    assert_eq!(out.data.len(), pixels * 4);
    for y in 0..height {
        for x in 0..width {
            let p = (y * width + x) as usize;
            assert_eq!(out.data[4 * p], base_data[4 * p]);
            assert_eq!(out.data[4 * p + 1], base_data[4 * p + 1]);
            assert_eq!(out.data[4 * p + 2], base_data[4 * p + 2]);
            assert_eq!(out.data[4 * p + 3], mask_data[p]);
        }
    }
}

#[test]
fn composite_leaves_its_arguments_alone() {
    let base = rgba(1, 2, vec![1, 2, 3, 4, 5, 6, 7, 8]);
    let mask = luma(1, 2, vec![100, 200]);
    let out = composite(&base, &mask);
    assert_eq!(base.data, vec![1, 2, 3, 4, 5, 6, 7, 8]);
    assert_eq!(mask.data, vec![100, 200]);
    assert_eq!(out.data, vec![1, 2, 3, 100, 5, 6, 7, 200]);
}

#[test]
fn composite_with_a_smaller_mask_stops_at_its_end() {
    let base = rgba(3, 1, vec![1, 2, 3, 250, 4, 5, 6, 251, 7, 8, 9, 252]);
    let mask = luma(2, 1, vec![60, 70]);
    let out = composite(&base, &mask);
    assert_eq!((out.width, out.height), (3, 1));
    assert_eq!(out.data, vec![1, 2, 3, 60, 4, 5, 6, 70, 7, 8, 9, 252]);
}

#[test]
fn composite_with_a_larger_mask_ignores_the_rest() {
    let base = rgba(1, 1, vec![9, 8, 7, 6]);
    let mask = luma(2, 2, vec![42, 43, 44, 45]);
    let out = composite(&base, &mask);
    assert_eq!((out.width, out.height), (1, 1));
    assert_eq!(out.data, vec![9, 8, 7, 42]);
}

#[test]
fn composite_pairs_pixels_in_storage_order() {
    let base = rgba(2, 3, vec![0; 24]);
    let mask = luma(3, 2, vec![1, 2, 3, 4, 5, 6]);
    let out = composite(&base, &mask);
    assert_eq!((out.width, out.height), (2, 3));
    let alpha: Vec<u8> = out.data.chunks(4).map(|p| p[3]).collect();
    assert_eq!(alpha, vec![1, 2, 3, 4, 5, 6]);
}

#[test]
fn composite_with_an_empty_mask_changes_nothing() {
    let base = rgba(1, 2, vec![1, 2, 3, 4, 5, 6, 7, 8]);
    let mask = luma(0, 0, vec![]);
    let out = composite(&base, &mask);
    assert_eq!(out, base);
}

#[test]
fn composite_of_an_empty_base_is_empty() {
    let base = rgba(0, 0, vec![]);
    let mask = luma(1, 1, vec![5]);
    let out = composite(&base, &mask);
    assert_eq!((out.width, out.height), (0, 0));
    assert!(out.data.is_empty());
}

#[test]
fn composite_ignores_a_broken_last_pixel() {
    let base = rgba(1, 2, vec![1, 2, 3, 4, 5, 6]);
    let mask = luma(1, 2, vec![90, 91]);
    let out = composite(&base, &mask);
    assert_eq!(out.data, vec![1, 2, 3, 90, 5, 6]);
}
