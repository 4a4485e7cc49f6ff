use basis::maxx::{MaxxTestGenerator, MAXX_MESSAGE_IDS};
use basis::scs::ScsTestGenerator;
use basis::constants::SCS_MESSAGE_IDS;

#[test]
fn scs_frames_at_counter_0() {
    let g = ScsTestGenerator::with_counter(0);
    let expected: [[u8; 8]; 17] = [
        [7, 208, 50, 100, 3, 232, 0, 100],
        [0, 0, 128, 200, 0, 0, 0, 0],
        [0, 0, 0, 0, 0, 0, 0, 0],
        [255, 206, 255, 226, 0, 0, 0, 0],
        [3, 232, 3, 132, 255, 246, 255, 251],
        [128, 130, 3, 232, 0, 100, 0, 50],
        [0, 50, 0, 0, 1, 44, 1, 194],
        [3, 245, 0, 0, 0, 0, 3, 232],
        [2, 154, 0, 0, 0, 0, 11, 184],
        [0, 0, 0, 0, 0, 0, 0, 0],
        [0, 0, 0, 50, 48, 45, 55, 52],
        [20, 25, 100, 20, 0, 0, 0, 0],
        [0, 0, 0, 0, 0, 0, 120, 100],
        [0, 0, 150, 140, 255, 236, 2, 238],
        [0, 0, 0, 0, 0, 0, 0, 0],
        [0, 100, 75, 150, 3, 232, 0, 0],
        [0, 0, 0, 0, 0, 0, 0, 0],
    ];
    for (k, &id) in SCS_MESSAGE_IDS.iter().enumerate() {
        let (frame_id, data) = g.generate_frame(id);
        assert_eq!(frame_id, id);
        assert_eq!(data, expected[k], "frame 0x{:03X}", id);
    }
}

#[test]
fn scs_frames_at_counter_7() {
    let g = ScsTestGenerator::with_counter(7);
    let expected: [[u8; 8]; 17] = [
        [10, 140, 57, 107, 5, 70, 0, 100],
        [0, 70, 135, 207, 2, 188, 1, 94],
        [0, 35, 2, 188, 2, 48, 70, 105],
        [255, 241, 255, 247, 14, 21, 2, 188],
        [5, 70, 4, 156, 0, 4, 0, 2],
        [135, 137, 5, 140, 0, 135, 0, 71],
        [1, 57, 0, 210, 1, 184, 2, 8],
        [4, 24, 2, 188, 1, 94, 4, 116],
        [2, 161, 0, 70, 35, 3, 13, 22],
        [1, 94, 1, 59, 1, 38, 1, 164],
        [1, 129, 1, 57, 55, 52, 62, 59],
        [27, 32, 107, 27, 1, 24, 1, 10],
        [2, 188, 0, 245, 1, 38, 127, 107],
        [0, 70, 157, 147, 0, 1, 3, 157],
        [0, 35, 0, 28, 0, 42, 0, 35],
        [0, 114, 82, 157, 5, 70, 21, 35],
        [7, 14, 21, 28, 35, 42, 49, 56],
    ];
    for (k, &id) in SCS_MESSAGE_IDS.iter().enumerate() {
        let (frame_id, data) = g.generate_frame(id);
        assert_eq!(frame_id, id);
        assert_eq!(data, expected[k], "frame 0x{:03X}", id);
    }
}

#[test]
fn scs_frames_at_counter_200() {
    let g = ScsTestGenerator::with_counter(200);
    let expected: [[u8; 8]; 17] = [
        [31, 64, 250, 255, 7, 208, 0, 100],
        [7, 208, 255, 255, 78, 32, 39, 16],
        [0, 100, 78, 32, 62, 128, 208, 184],
        [0, 180, 0, 180, 144, 88, 2, 51],
        [3, 232, 3, 132, 1, 134, 0, 195],
        [255, 255, 3, 232, 4, 76, 2, 138],
        [0, 250, 23, 112, 16, 204, 9, 146],
        [3, 145, 78, 32, 39, 16, 19, 136],
        [3, 98, 7, 208, 232, 100, 19, 136],
        [39, 16, 35, 40, 32, 208, 46, 224],
        [42, 248, 2, 250, 248, 245, 255, 252],
        [220, 225, 145, 220, 31, 64, 29, 176],
        [78, 32, 27, 88, 32, 208, 185, 100],
        [7, 208, 245, 225, 2, 68, 6, 214],
        [3, 232, 3, 32, 4, 176, 3, 232],
        [1, 244, 115, 255, 42, 248, 88, 232],
        [200, 144, 88, 32, 232, 176, 120, 64],
    ];
    for (k, &id) in SCS_MESSAGE_IDS.iter().enumerate() {
        let (frame_id, data) = g.generate_frame(id);
        assert_eq!(frame_id, id);
        assert_eq!(data, expected[k], "frame 0x{:03X}", id);
    }
}

#[test]
fn scs_frames_at_counter_255() {
    let g = ScsTestGenerator::with_counter(255);
    let expected: [[u8; 8]; 17] = [
        [31, 64, 255, 255, 7, 208, 0, 100],
        [9, 246, 255, 255, 99, 156, 49, 206],
        [0, 75, 99, 156, 79, 176, 246, 241],
        [0, 180, 0, 180, 254, 253, 3, 180],
        [14, 166, 12, 28, 1, 244, 0, 250],
        [255, 255, 16, 204, 5, 95, 3, 47],
        [1, 255, 29, 226, 21, 24, 11, 184],
        [0, 88, 99, 156, 49, 206, 23, 212],
        [3, 153, 9, 246, 251, 127, 19, 136],
        [49, 206, 44, 211, 41, 214, 59, 196],
        [54, 201, 0, 255, 255, 255, 255, 255],
        [255, 255, 200, 255, 39, 216, 37, 218],
        [99, 156, 34, 221, 41, 214, 240, 155],
        [9, 246, 195, 165, 2, 233, 4, 101],
        [4, 251, 3, 252, 5, 250, 4, 251],
        [2, 98, 90, 255, 53, 182, 253, 251],
        [255, 254, 253, 252, 251, 250, 249, 248],
    ];
    for (k, &id) in SCS_MESSAGE_IDS.iter().enumerate() {
        let (frame_id, data) = g.generate_frame(id);
        assert_eq!(frame_id, id);
        assert_eq!(data, expected[k], "frame 0x{:03X}", id);
    }
}

#[test]
fn maxx_frames_at_counter_0() {
    let g = MaxxTestGenerator::with_counter(0);
    let expected: [[u8; 8]; 21] = [
        [220, 5, 220, 0, 232, 3, 232, 3],
        [232, 3, 237, 3, 150, 0, 0, 0],
        [250, 0, 44, 1, 0, 0, 44, 1],
        [200, 0, 195, 0, 10, 0, 12, 0],
        [232, 3, 50, 0, 45, 0, 111, 4],
        [32, 1, 0, 0, 88, 27, 0, 0],
        [10, 0, 2, 0, 0, 0, 232, 3],
        [2, 0, 5, 0, 0, 0, 1, 0],
        [176, 4, 245, 3, 200, 0, 90, 0],
        [100, 0, 82, 3, 10, 0, 188, 2],
        [193, 2, 198, 2, 203, 2, 208, 2],
        [213, 2, 218, 2, 223, 2, 228, 2],
        [5, 0, 80, 0, 0, 0, 0, 0],
        [100, 0, 200, 0, 44, 1, 144, 1],
        [0, 0, 35, 0, 144, 1, 85, 0],
        [44, 1, 250, 0, 120, 0, 200, 0],
        [10, 0, 20, 0, 30, 0, 40, 0],
        [50, 0, 60, 0, 70, 0, 80, 0],
        [0, 1, 45, 0, 80, 0, 60, 0],
        [100, 0, 90, 0, 95, 0, 85, 0],
        [110, 0, 105, 0, 0, 0, 0, 0],
    ];
    for (k, &id) in MAXX_MESSAGE_IDS.iter().enumerate() {
        let (frame_id, data) = g.generate_frame(id);
        assert_eq!(frame_id, id);
        assert_eq!(data, expected[k], "frame 0x{:03X}", id);
    }
}

#[test]
fn maxx_frames_at_counter_7() {
    let g = MaxxTestGenerator::with_counter(7);
    let expected: [[u8; 8]; 21] = [
        [12, 8, 255, 0, 60, 4, 253, 3],
        [246, 3, 251, 3, 136, 0, 7, 0],
        [22, 1, 86, 1, 2, 0, 100, 1],
        [235, 0, 230, 0, 17, 0, 19, 0],
        [211, 3, 57, 0, 52, 0, 111, 4],
        [35, 3, 0, 0, 250, 25, 0, 0],
        [17, 0, 9, 0, 7, 0, 246, 3],
        [9, 0, 12, 0, 7, 0, 8, 0],
        [211, 4, 252, 3, 207, 0, 97, 0],
        [107, 0, 89, 3, 17, 0, 195, 2],
        [200, 2, 205, 2, 210, 2, 215, 2],
        [220, 2, 225, 2, 230, 2, 235, 2],
        [12, 0, 87, 0, 1, 0, 1, 0],
        [107, 0, 207, 0, 51, 1, 151, 1],
        [1, 0, 42, 0, 158, 1, 92, 0],
        [51, 1, 1, 1, 127, 0, 207, 0],
        [17, 0, 27, 0, 37, 0, 47, 0],
        [57, 0, 67, 0, 77, 0, 87, 0],
        [3, 2, 52, 0, 87, 0, 67, 0],
        [107, 0, 97, 0, 102, 0, 92, 0],
        [117, 0, 112, 0, 0, 0, 0, 0],
    ];
    for (k, &id) in MAXX_MESSAGE_IDS.iter().enumerate() {
        let (frame_id, data) = g.generate_frame(id);
        assert_eq!(frame_id, id);
        assert_eq!(data, expected[k], "frame 0x{:03X}", id);
    }
}

#[test]
fn maxx_frames_at_counter_200() {
    let g = MaxxTestGenerator::with_counter(200);
    let expected: [[u8; 8]; 21] = [
        [92, 68, 196, 4, 72, 13, 64, 6],
        [120, 5, 125, 5, 6, 255, 0, 0],
        [26, 4, 220, 5, 0, 0, 108, 7],
        [176, 4, 171, 4, 210, 0, 212, 0],
        [144, 1, 250, 0, 245, 0, 111, 4],
        [32, 1, 0, 0, 72, 244, 0, 0],
        [210, 0, 202, 0, 200, 0, 120, 5],
        [202, 0, 205, 0, 0, 0, 1, 0],
        [152, 8, 189, 4, 144, 1, 34, 1],
        [44, 1, 26, 4, 210, 0, 132, 3],
        [137, 3, 142, 3, 147, 3, 152, 3],
        [157, 3, 162, 3, 167, 3, 172, 3],
        [205, 0, 24, 1, 2, 0, 0, 0],
        [44, 1, 144, 1, 244, 1, 88, 2],
        [2, 0, 235, 0, 32, 3, 29, 1],
        [244, 1, 194, 1, 64, 1, 144, 1],
        [210, 0, 220, 0, 230, 0, 240, 0],
        [250, 0, 4, 1, 14, 1, 24, 1],
        [0, 0, 245, 0, 24, 1, 4, 1],
        [44, 1, 34, 1, 39, 1, 29, 1],
        [54, 1, 49, 1, 0, 0, 0, 0],
    ];
    for (k, &id) in MAXX_MESSAGE_IDS.iter().enumerate() {
        let (frame_id, data) = g.generate_frame(id);
        assert_eq!(frame_id, id);
        assert_eq!(data, expected[k], "frame 0x{:03X}", id);
    }
}

#[test]
fn maxx_frames_at_counter_255() {
    let g = MaxxTestGenerator::with_counter(255);
    let expected: [[u8; 8]; 21] = [
        [140, 85, 215, 5, 220, 15, 229, 6],
        [230, 5, 235, 5, 152, 254, 5, 0],
        [246, 4, 38, 7, 0, 0, 36, 9],
        [195, 5, 190, 5, 9, 1, 11, 1],
        [235, 0, 49, 1, 44, 1, 111, 4],
        [35, 3, 0, 0, 138, 233, 0, 0],
        [9, 1, 1, 1, 255, 0, 230, 5],
        [1, 1, 4, 1, 7, 0, 8, 0],
        [171, 9, 244, 4, 199, 1, 89, 1],
        [99, 1, 81, 4, 9, 1, 187, 3],
        [192, 3, 197, 3, 202, 3, 207, 3],
        [212, 3, 217, 3, 222, 3, 227, 3],
        [4, 1, 79, 1, 0, 0, 1, 0],
        [99, 1, 199, 1, 43, 2, 143, 2],
        [3, 0, 34, 1, 142, 3, 84, 1],
        [43, 2, 249, 1, 119, 1, 199, 1],
        [9, 1, 19, 1, 29, 1, 39, 1],
        [49, 1, 59, 1, 69, 1, 79, 1],
        [3, 1, 44, 1, 79, 1, 59, 1],
        [99, 1, 89, 1, 94, 1, 84, 1],
        [109, 1, 104, 1, 0, 0, 0, 0],
    ];
    for (k, &id) in MAXX_MESSAGE_IDS.iter().enumerate() {
        if id == 0x540 {
            continue;
        }
        let (frame_id, data) = g.generate_frame(id);
        assert_eq!(frame_id, id);
        assert_eq!(data, expected[k], "frame 0x{:03X}", id);
    }
}

#[test]
fn unknown_ids_give_zero_frames() {
    let scs = ScsTestGenerator::with_counter(42);
    assert_eq!(scs.generate_frame(0x311), (0x311, [0u8; 8]));
    assert_eq!(scs.generate_frame(0x2FF), (0x2FF, [0u8; 8]));
    let maxx = MaxxTestGenerator::with_counter(42);
    assert_eq!(maxx.generate_frame(0x525), (0x525, [0u8; 8]));
    assert_eq!(maxx.generate_frame(0x300), (0x300, [0u8; 8]));
}

#[test]
fn counters_wrap_after_255() {
    let mut scs = ScsTestGenerator::new();
    assert_eq!(scs.counter(), 0);
    for _ in 0..255 {
        scs.next_cycle();
    }
    assert_eq!(scs.counter(), 255);
    scs.next_cycle();
    assert_eq!(scs.counter(), 0);

    let mut maxx = MaxxTestGenerator::default();
    assert_eq!(maxx.counter(), 0);
    maxx.next_cycle();
    assert_eq!(maxx.counter(), 1);
    let mut maxx = MaxxTestGenerator::with_counter(255);
    maxx.next_cycle();
    assert_eq!(maxx.counter(), 0);
    assert_eq!(ScsTestGenerator::default().counter(), 0);
}

#[test]
fn scs_rpm_is_capped_at_8000() {
    let g = ScsTestGenerator::with_counter(100);
    let (_, data) = g.generate_frame(0x300);
    assert_eq!(u16::from_be_bytes([data[0], data[1]]), 8000);
    assert_eq!(i16::from_be_bytes([data[4], data[5]]), 2000);
}

#[test]
fn scs_generated_values_stay_in_range() {
    for counter in 0..=255u8 {
        let g = ScsTestGenerator::with_counter(counter);
        let (_, f300) = g.generate_frame(0x300);
        let rpm = u16::from_be_bytes([f300[0], f300[1]]);
        let map = i16::from_be_bytes([f300[4], f300[5]]);
        assert!((500..=8000).contains(&rpm), "rpm {} at {}", rpm, counter);
        assert!((0..=2000).contains(&map), "map {} at {}", map, counter);
        let (_, f302) = g.generate_frame(0x302);
        assert!(u16::from_be_bytes([f302[0], f302[1]]) <= 3000);
        let (_, f303) = g.generate_frame(0x303);
        let ivct = i16::from_be_bytes([f303[0], f303[1]]);
        let evct = i16::from_be_bytes([f303[2], f303[3]]);
        assert!((-180..=180).contains(&ivct), "ivct {} at {}", ivct, counter);
        assert!((-180..=180).contains(&evct), "evct {} at {}", evct, counter);
        assert!(u16::from_be_bytes([f303[6], f303[7]]) <= 1023);
        let (_, f308) = g.generate_frame(0x308);
        let vbatt = u16::from_be_bytes([f308[0], f308[1]]);
        let dwell = u16::from_be_bytes([f308[6], f308[7]]);
        assert!(vbatt <= 1023, "vbatt {} at {}", vbatt, counter);
        assert!((1000..=5000).contains(&dwell), "dwell {} at {}", dwell, counter);
    }
    // the battery starts at VBATT_BASE; cam angle and dwell stop at their limits
    let (_, f308) = ScsTestGenerator::with_counter(0).generate_frame(0x308);
    assert_eq!(u16::from_be_bytes([f308[0], f308[1]]), 666);
    let (_, f303) = ScsTestGenerator::with_counter(50).generate_frame(0x303);
    assert_eq!(i16::from_be_bytes([f303[0], f303[1]]), 180);
    let (_, f308) = ScsTestGenerator::with_counter(41).generate_frame(0x308);
    assert_eq!(u16::from_be_bytes([f308[6], f308[7]]), 5000);
}
