use asciicam::capture::{frame_text, snapshot_file_name, step, Action, CameraBuffer, LoopState};
use asciicam::grid::{FrameError, LuminanceGrid};
use asciicam::ramp::{default_ramp, CharArr};
use asciicam::render::render_frame;
use asciicam::resample::resample;

fn grid(w: u32, h: u32, samples: Vec<u8>) -> LuminanceGrid {
    LuminanceGrid::from_raw(w, h, samples).ok().unwrap()
}

fn glyph(ramp: &[char], p: u8) -> char {
    CharArr::get_char(CharArr::new(ramp, p))
}

#[test]
fn ramp_extremes_and_formula() {
    let ramp = default_ramp();
    assert_eq!(ramp.len(), 13);
    assert_eq!(glyph(&ramp, 0), ' ');
    assert_eq!(glyph(&ramp, 255), '?');
    // 128 * 12 / 255 = 6
    assert_eq!(glyph(&ramp, 128), '=');
    // 21 * 12 / 255 = 0, 22 * 12 / 255 = 1, 64 * 12 / 255 = 3
    assert_eq!(glyph(&ramp, 21), ' ');
    assert_eq!(glyph(&ramp, 64), '.');
    let two = ['a', 'b'];
    assert_eq!(glyph(&two, 254), 'a');
    assert_eq!(glyph(&two, 255), 'b');
}

#[test]
fn ramp_index_monotone_on_all_bytes() {
    let ramp: Vec<char> = "abcdefghij".chars().collect();
    let mut prev = 0usize;
    for p in 0..=255u8 {
        let c = glyph(&ramp, p);
        let idx = ramp.iter().position(|&r| r == c).unwrap();
        assert!(idx >= prev);
        assert!(idx < ramp.len());
        prev = idx;
    }
    assert_eq!(prev, ramp.len() - 1);
}

#[test]
fn grid_assembly_errors() {
    assert!(matches!(LuminanceGrid::from_raw(0, 2, vec![]), Err(FrameError::DimensionInvalid)));
    assert!(matches!(LuminanceGrid::from_raw(2, 0, vec![]), Err(FrameError::DimensionInvalid)));
    assert!(matches!(
        LuminanceGrid::from_raw(2, 2, vec![1, 2, 3]),
        Err(FrameError::ImageAssemblyFailed)
    ));
    let g = grid(3, 2, vec![1, 2, 3, 4, 5, 6]);
    assert_eq!(g.width(), 3);
    assert_eq!(g.height(), 2);
    assert_eq!(g.get(0, 1), 4);
    assert_eq!(g.get(2, 0), 3);
}

#[test]
fn resample_to_own_size_is_identity() {
    let samples: Vec<u8> = (0..20u8).map(|v| v * 7).collect();
    let g = resample(grid(5, 4, samples.clone()), 5, 4).ok().unwrap();
    assert_eq!(g.width(), 5);
    assert_eq!(g.height(), 4);
    assert_eq!(g.samples(), &samples);
}

#[test]
fn resample_yields_requested_size() {
    let samples: Vec<u8> = (0..12u8).collect();
    for (w, h) in [(1u32, 1u32), (2, 3), (8, 5), (40, 17), (3, 1)] {
        let g = resample(grid(4, 3, samples.clone()), w, h).ok().unwrap();
        assert_eq!(g.width(), w);
        assert_eq!(g.height(), h);
        assert_eq!(g.samples().len(), (w * h) as usize);
        for s in g.samples() {
            assert!(samples.contains(s));
        }
    }
}

#[test]
fn resample_upscale_repeats_samples() {
    let g = resample(grid(2, 1, vec![10, 200]), 4, 2).ok().unwrap();
    assert_eq!(g.samples(), &vec![10, 10, 200, 200, 10, 10, 200, 200]);
}

#[test]
fn resample_zero_target_is_dimension_invalid() {
    let g = grid(2, 2, vec![1, 2, 3, 4]);
    assert!(matches!(resample(g, 0, 3), Err(FrameError::DimensionInvalid)));
    let g = grid(2, 2, vec![1, 2, 3, 4]);
    assert!(matches!(resample(g, 3, 0), Err(FrameError::DimensionInvalid)));
    let g = grid(2, 2, vec![1, 2, 3, 4]);
    assert!(matches!(resample(g, 0, 0), Err(FrameError::DimensionInvalid)));
}

#[test]
fn resample_oversized_target_fails() {
    let g = grid(1, 1, vec![9]);
    assert!(matches!(resample(g, 65536, 65536), Err(FrameError::ResampleFailed)));
}

#[test]
fn resample_side_above_terminal_range_fails() {
    assert!(matches!(resample(grid(1, 1, vec![9]), 1, 65536), Err(FrameError::ResampleFailed)));
    assert!(matches!(resample(grid(1, 1, vec![9]), 65536, 1), Err(FrameError::ResampleFailed)));
    let g = resample(grid(1, 1, vec![9]), 65535, 2).ok().unwrap();
    assert_eq!(g.width(), 65535);
    assert_eq!(g.height(), 2);
    assert_eq!(g.samples().len(), 131070);
    assert!(g.samples().iter().all(|&v| v == 9));
}

#[test]
fn get_cam_at_own_size_keeps_samples() {
    let pixels = vec![5, 80, 160, 240, 33, 0];
    let buff = CameraBuffer { pixels: Some(pixels.clone()), src_width: 3, src_height: 2, dst_width: 3, dst_height: 2 };
    let g = CameraBuffer::get_cam(buff).ok().unwrap();
    assert_eq!(g.width(), 3);
    assert_eq!(g.height(), 2);
    assert_eq!(g.samples(), &pixels);
}

#[test]
fn get_cam_output_samples_come_from_source() {
    let pixels: Vec<u8> = (0..30u8).map(|v| v * 3 + 1).collect();
    for (w, h) in [(2u32, 2u32), (11, 7), (1, 9), (6, 5)] {
        let buff = CameraBuffer { pixels: Some(pixels.clone()), src_width: 6, src_height: 5, dst_width: w, dst_height: h };
        let g = CameraBuffer::get_cam(buff).ok().unwrap();
        assert_eq!(g.width(), w);
        assert_eq!(g.height(), h);
        assert!(g.samples().iter().all(|s| pixels.contains(s)));
    }
}

#[test]
fn render_shape_and_line_ends() {
    let samples: Vec<u8> = (0..15u8).map(|v| v * 17).collect();
    let text = render_frame(&grid(5, 3, samples));
    assert_eq!(text.chars().count(), 3 * (5 + 2));
    let lines: Vec<&str> = text.split_terminator("\r\n").collect();
    assert_eq!(lines.len(), 3);
    for line in lines {
        assert_eq!(line.chars().count(), 5);
        assert!(!line.contains('\r') && !line.contains('\n'));
    }
    assert!(text.ends_with("\r\n"));
}

#[test]
fn render_mirrors_rows() {
    let ramp = default_ramp();
    let samples = vec![0, 60, 120, 180, 255, 255, 0, 128];
    let text = render_frame(&grid(4, 2, samples.clone()));
    let lines: Vec<Vec<char>> = text.split_terminator("\r\n").map(|l| l.chars().collect()).collect();
    for y in 0..2usize {
        for x in 0..4usize {
            assert_eq!(lines[y][3 - x], glyph(&ramp, samples[y * 4 + x]));
        }
    }
}

#[test]
fn all_zero_four_by_four_renders_blank_lines() {
    let g = resample(grid(4, 4, vec![0; 16]), 4, 4).ok().unwrap();
    let text = render_frame(&g);
    assert_eq!(text, "    \r\n    \r\n    \r\n    \r\n");
}

#[test]
fn two_by_one_renders_mirrored() {
    let g = resample(grid(2, 1, vec![0, 255]), 2, 1).ok().unwrap();
    let text = render_frame(&g);
    assert_eq!(text, "? \r\n");
}

#[test]
fn decode_failure_stops_without_display() {
    let buff = CameraBuffer { pixels: None, src_width: 4, src_height: 4, dst_width: 4, dst_height: 4 };
    let frame = frame_text(buff);
    assert!(matches!(frame, Err(FrameError::DecodeFailed)));
    for key in [None, Some('s'), Some('q'), Some('x')] {
        let (state, action) = step(&frame, key);
        assert_eq!(state, LoopState::Stopped);
        assert_eq!(action, Action::Abort(FrameError::DecodeFailed));
    }
}

#[test]
fn frame_pipeline_errors() {
    let zero_src = CameraBuffer { pixels: Some(vec![]), src_width: 0, src_height: 4, dst_width: 4, dst_height: 4 };
    assert!(matches!(CameraBuffer::get_cam(zero_src), Err(FrameError::DimensionInvalid)));
    let short = CameraBuffer { pixels: Some(vec![0; 15]), src_width: 4, src_height: 4, dst_width: 4, dst_height: 4 };
    assert!(matches!(CameraBuffer::get_cam(short), Err(FrameError::ImageAssemblyFailed)));
    let zero_dst = CameraBuffer { pixels: Some(vec![0; 16]), src_width: 4, src_height: 4, dst_width: 4, dst_height: 0 };
    assert!(matches!(frame_text(zero_dst), Err(FrameError::DimensionInvalid)));
}

#[test]
fn frame_pipeline_downscales_and_renders() {
    let buff = CameraBuffer { pixels: Some(vec![255; 64]), src_width: 8, src_height: 8, dst_width: 3, dst_height: 2 };
    let text = frame_text(buff).ok().unwrap();
    assert_eq!(text, "???\r\n???\r\n");
}

#[test]
fn step_decisions() {
    let frame: Result<String, FrameError> = Ok(String::from("x\r\n"));
    assert_eq!(step(&frame, None), (LoopState::Running, Action::Display));
    assert_eq!(step(&frame, Some('s')), (LoopState::Running, Action::SaveAndDisplay));
    assert_eq!(step(&frame, Some('q')), (LoopState::Stopped, Action::Quit));
    assert_eq!(step(&frame, Some('a')), (LoopState::Running, Action::Display));
}

#[test]
fn one_save_per_save_key() {
    let frame: Result<String, FrameError> = Ok(String::from(" \r\n"));
    let keys = [Some('s'), None, Some('s'), Some('x'), Some('s'), Some('q'), Some('s')];
    let mut saves = 0;
    for key in keys {
        let (state, action) = step(&frame, key);
        if action == Action::SaveAndDisplay {
            saves += 1;
        }
        if state == LoopState::Stopped {
            break;
        }
    }
    assert_eq!(saves, 3);
}

#[test]
fn snapshot_name_pattern() {
    assert_eq!(snapshot_file_name("2024-01-02_03:04:05"), "asciicam-2024-01-02_03:04:05.txt");
}
