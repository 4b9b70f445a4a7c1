use framelet::error::PipelineError;
use framelet::frame::flip_rows;
use framelet::frame::CropRect;
use framelet::types::Region;

fn image(width: u32, height: u32) -> Vec<u8> {
    let mut bytes = Vec::new();
    for row in 0..height {
        for col in 0..width {
            for channel in 0..4u32 {
                bytes.push(((row * 31 + col * 7 + channel) % 251) as u8);
            }
        }
    }
    bytes
}

#[test]
fn crop_rect_inside_frame() {
    let region = Region { x: 100, y: 50, width: 400, height: 300 };
    assert_eq!(
        region.crop_rect(1920, 1080),
        Ok(CropRect { start_x: 100, start_y: 50, end_x: 500, end_y: 350 })
    );
}

#[test]
fn crop_rect_touching_the_far_edges() {
    let region = Region { x: 1520, y: 780, width: 400, height: 300 };
    assert_eq!(
        region.crop_rect(1920, 1080),
        Ok(CropRect { start_x: 1520, start_y: 780, end_x: 1920, end_y: 1080 })
    );
    let whole = Region { x: 0, y: 0, width: 1920, height: 1080 };
    assert_eq!(
        whole.crop_rect(1920, 1080),
        Ok(CropRect { start_x: 0, start_y: 0, end_x: 1920, end_y: 1080 })
    );
}

#[test]
fn crop_rect_past_the_right_edge() {
    let region = Region { x: 1521, y: 0, width: 400, height: 300 };
    assert_eq!(region.crop_rect(1920, 1080), Err(PipelineError::CropOutOfBounds));
}

#[test]
fn crop_rect_past_the_bottom_edge() {
    let region = Region { x: 0, y: 781, width: 400, height: 300 };
    assert_eq!(region.crop_rect(1920, 1080), Err(PipelineError::CropOutOfBounds));
}

#[test]
fn crop_rect_with_negative_origin() {
    let left = Region { x: -1, y: 0, width: 10, height: 10 };
    assert_eq!(left.crop_rect(1920, 1080), Err(PipelineError::CropOutOfBounds));
    let above = Region { x: 0, y: -5, width: 10, height: 10 };
    assert_eq!(above.crop_rect(1920, 1080), Err(PipelineError::CropOutOfBounds));
}

#[test]
fn crop_rect_with_extreme_values() {
    let huge = Region { x: i32::MAX, y: i32::MAX, width: u32::MAX, height: u32::MAX };
    assert_eq!(huge.crop_rect(u32::MAX, u32::MAX), Err(PipelineError::CropOutOfBounds));
    let lowest = Region { x: i32::MIN, y: i32::MIN, width: 1, height: 1 };
    assert_eq!(lowest.crop_rect(1, 1), Err(PipelineError::CropOutOfBounds));
    let widest = Region { x: 0, y: 0, width: u32::MAX, height: u32::MAX };
    assert_eq!(
        widest.crop_rect(u32::MAX, u32::MAX),
        Ok(CropRect { start_x: 0, start_y: 0, end_x: u32::MAX, end_y: u32::MAX })
    );
}

#[test]
fn crop_rect_without_pixels() {
    let flat = Region { x: 10, y: 10, width: 0, height: 20 };
    assert_eq!(flat.crop_rect(100, 100), Err(PipelineError::EmptyRegion));
    let thin = Region { x: 10, y: 10, width: 20, height: 0 };
    assert_eq!(thin.crop_rect(100, 100), Err(PipelineError::EmptyRegion));
    let outside = Region { x: 101, y: 10, width: 0, height: 20 };
    assert_eq!(outside.crop_rect(100, 100), Err(PipelineError::CropOutOfBounds));
}

#[test]
fn crop_rect_on_an_empty_frame() {
    let region = Region { x: 0, y: 0, width: 1, height: 1 };
    assert_eq!(region.crop_rect(0, 0), Err(PipelineError::CropOutOfBounds));
}

#[test]
fn flip_rows_two_by_three() {
    let buf: Vec<u8> = (0u8..24).collect();
    let flipped = flip_rows(&buf, 2, 3).unwrap();
    let expected: Vec<u8> = vec![
        16, 17, 18, 19, 20, 21, 22, 23, 8, 9, 10, 11, 12, 13, 14, 15, 0, 1, 2, 3, 4, 5, 6, 7,
    ];
    assert_eq!(flipped, expected);
}

#[test]
fn flip_rows_single_row_is_unchanged() {
    let buf: Vec<u8> = vec![9, 8, 7, 6, 5, 4, 3, 2];
    assert_eq!(flip_rows(&buf, 2, 1), Ok(buf.clone()));
}

#[test]
fn flip_rows_single_column() {
    let buf: Vec<u8> = vec![1, 1, 1, 1, 2, 2, 2, 2, 3, 3, 3, 3];
    assert_eq!(flip_rows(&buf, 1, 3), Ok(vec![3, 3, 3, 3, 2, 2, 2, 2, 1, 1, 1, 1]));
}

#[test]
fn flip_rows_of_nothing() {
    let empty: Vec<u8> = Vec::new();
    assert_eq!(flip_rows(&empty, 0, 0), Ok(Vec::new()));
    assert_eq!(flip_rows(&empty, 5, 0), Ok(Vec::new()));
    assert_eq!(flip_rows(&empty, 0, 5), Ok(Vec::new()));
    let some: Vec<u8> = vec![1, 2, 3];
    assert_eq!(flip_rows(&some, 0, 7), Ok(Vec::new()));
}

#[test]
fn flip_rows_short_buffer() {
    let buf: Vec<u8> = vec![0; 23];
    assert_eq!(flip_rows(&buf, 2, 3), Err(PipelineError::ShortBuffer));
    let empty: Vec<u8> = Vec::new();
    assert_eq!(flip_rows(&empty, 1, 1), Err(PipelineError::ShortBuffer));
}

#[test]
fn flip_rows_size_beyond_any_buffer() {
    let buf: Vec<u8> = vec![0; 64];
    assert_eq!(flip_rows(&buf, u32::MAX, u32::MAX), Err(PipelineError::ShortBuffer));
    assert_eq!(flip_rows(&buf, u32::MAX, 1), Err(PipelineError::ShortBuffer));
}

#[test]
fn flip_rows_ignores_bytes_after_the_image() {
    let mut buf: Vec<u8> = (0u8..16).collect();
    buf.push(99);
    buf.push(98);
    let flipped = flip_rows(&buf, 2, 2).unwrap();
    assert_eq!(flipped, vec![8, 9, 10, 11, 12, 13, 14, 15, 0, 1, 2, 3, 4, 5, 6, 7]);
}

#[test]
fn flip_rows_moves_each_row_to_its_mirror() {
    let width = 5u32;
    let height = 4u32;
    let buf = image(width, height);
    let flipped = flip_rows(&buf, width, height).unwrap();
    let row_len = (width * 4) as usize;
    assert_eq!(flipped.len(), buf.len());
    for row in 0..height as usize {
        let mirrored = height as usize - 1 - row;
        assert_eq!(
            &flipped[row * row_len..(row + 1) * row_len],
            &buf[mirrored * row_len..(mirrored + 1) * row_len]
        );
    }
}

#[test]
fn flip_rows_twice_restores_the_image() {
    for height in 0u32..9 {
        for width in 0u32..7 {
            let buf = image(width, height);
            let once = flip_rows(&buf, width, height).unwrap();
            let twice = flip_rows(&once, width, height).unwrap();
            assert_eq!(twice, buf);
            if height > 1 && width > 0 {
                assert_ne!(once, buf);
            }
        }
    }
}

#[test]
fn flip_rows_twice_restores_the_image_part_of_a_longer_buffer() {
    let mut buf = image(3, 4);
    let image_len = buf.len();
    buf.extend_from_slice(&[7, 7, 7]);
    let once = flip_rows(&buf, 3, 4).unwrap();
    let twice = flip_rows(&once, 3, 4).unwrap();
    assert_eq!(&twice[..], &buf[..image_len]);
}
