use max7219_led_mat::driver::{Error, MAX7219LedMat, Pixel};
use max7219_led_mat::protocol::{
    command_frame, decode_mode_command, init_frames, intensity_command, power_mode_command,
    scan_limit_command, Command, DecodeMode, Intensity, ScanLimit, Shutdown,
};
use max7219_led_mat::session::{advance, start, Action};

type One = MAX7219LedMat<(), 64, 1>;
type Two = MAX7219LedMat<(), 128, 2>;
type Four = MAX7219LedMat<(), 256, 4>;

fn px(x: i32, y: i32, on: bool) -> Pixel {
    Pixel { x, y, on }
}

/// Drives a run of frames against a transport that answers the k-th send
/// with `answers[k]`; returns the frames sent and the result.
fn drive(frames: &Vec<Vec<u8>>, answers: &[Result<(), u32>]) -> (Vec<Vec<u8>>, Result<(), Error<u32>>) {
    let mut sent: Vec<Vec<u8>> = Vec::new();
    let mut action: Action<u32> = start(frames.len());
    loop {
        match action {
            Action::Transmit(k) => {
                sent.push(frames[k].clone());
                let outcome = answers[sent.len() - 1];
                action = advance(k, frames.len(), outcome);
            }
            Action::Finished(r) => return (sent, r),
        }
    }
}

#[test]
fn new_starts_dark() {
    let m: Four = MAX7219LedMat::new(());
    for y in 0..8 {
        for x in 0..32 {
            assert_eq!(m.get_pixel(x, y), Some(false));
        }
    }
}

#[test]
fn clear_turns_every_pixel_off() {
    let mut m: Two = MAX7219LedMat::new(());
    for y in 0..8 {
        for x in 0..16 {
            m.set_pixel(x, y, (x + y) % 3 == 0);
        }
    }
    m.clear();
    for y in 0..8 {
        for x in 0..16 {
            assert_eq!(m.get_pixel(x, y), Some(false));
        }
    }
}

#[test]
fn set_then_get_reads_back() {
    let mut m: Four = MAX7219LedMat::new(());
    for y in 0..8 {
        for x in 0..32 {
            m.set_pixel(x, y, true);
            assert_eq!(m.get_pixel(x, y), Some(true));
            m.set_pixel(x, y, false);
            assert_eq!(m.get_pixel(x, y), Some(false));
        }
    }
}

#[test]
fn set_outside_changes_nothing() {
    let mut m: Two = MAX7219LedMat::new(());
    m.set_pixel(3, 4, true);
    let before = m.flush_frames();
    for (x, y) in [(-1, 0), (0, -1), (16, 0), (0, 8), (100, 100), (i32::MIN, i32::MAX)] {
        m.set_pixel(x, y, true);
        assert_eq!(m.get_pixel(x, y), None);
    }
    assert_eq!(m.flush_frames(), before);
}

#[test]
fn packing_is_msb_first() {
    for r in 0..8 {
        let mut m: One = MAX7219LedMat::new(());
        m.set_pixel(0, r, true);
        let frames = m.flush_frames();
        assert_eq!(frames[r as usize], vec![r as u8 + 1, 0x80]);
        let mut m: One = MAX7219LedMat::new(());
        m.set_pixel(7, r, true);
        let frames = m.flush_frames();
        assert_eq!(frames[r as usize], vec![r as u8 + 1, 0x01]);
    }
}

#[test]
fn module_zero_goes_in_last_slot() {
    let mut m: Two = MAX7219LedMat::new(());
    m.set_pixel(2, 5, true);
    let frames = m.flush_frames();
    assert_eq!(frames[5], vec![6, 0x00, 6, 0x20]);
    let mut m: Two = MAX7219LedMat::new(());
    m.set_pixel(9, 5, true);
    let frames = m.flush_frames();
    assert_eq!(frames[5], vec![6, 0x40, 6, 0x00]);
}

#[test]
fn flush_sends_eight_frames_of_two_bytes_per_module() {
    let mut m: Four = MAX7219LedMat::new(());
    m.set_pixel(31, 7, true);
    let frames = m.flush_frames();
    assert_eq!(frames.len(), 8);
    for (addr, f) in frames.iter().enumerate() {
        assert_eq!(f.len(), 8);
        for i in 0..4 {
            assert_eq!(f[2 * i], addr as u8 + 1);
        }
    }
    assert_eq!(frames[7], vec![8, 0x01, 8, 0, 8, 0, 8, 0]);
}

#[test]
fn row_frame_packs_a_whole_row() {
    let mut m: Two = MAX7219LedMat::new(());
    for x in [0, 2, 4, 6, 8, 9, 10, 11] {
        m.set_pixel(x, 1, true);
    }
    assert_eq!(m.row_frame(1), vec![2, 0xF0, 2, 0xAA]);
    assert_eq!(m.module_byte(0, 1), 0xAA);
    assert_eq!(m.module_byte(1, 1), 0xF0);
    assert_eq!(m.row_frame(0), vec![1, 0, 1, 0]);
}

#[test]
fn init_stops_at_second_failure() {
    let frames = init_frames();
    let (sent, result) = drive(&frames, &[Ok(()), Err(7), Ok(()), Ok(())]);
    assert_eq!(sent.len(), 2);
    assert_eq!(sent[1], vec![0x09, 0x00]);
    assert!(matches!(result, Err(Error::Comm(7))));
}

#[test]
fn init_sends_four_commands_in_order() {
    let frames = init_frames();
    let (sent, result) = drive(&frames, &[Ok(()); 4]);
    assert!(matches!(result, Ok(())));
    assert_eq!(sent, vec![vec![0x0C, 0x01], vec![0x09, 0x00], vec![0x0B, 0x07], vec![0x0A, 0x01]]);
}

#[test]
fn flush_stops_at_first_failure() {
    let m: Two = MAX7219LedMat::new(());
    let frames = m.flush_frames();
    let mut answers = [Ok(()); 8];
    answers[3] = Err(42);
    let (sent, result) = drive(&frames, &answers);
    assert_eq!(sent.len(), 4);
    assert!(matches!(result, Err(Error::Comm(42))));
}

#[test]
fn empty_run_finishes_at_once() {
    let frames: Vec<Vec<u8>> = Vec::new();
    let (sent, result) = drive(&frames, &[]);
    assert!(sent.is_empty());
    assert!(matches!(result, Ok(())));
}

#[test]
fn clear_forgets_pixels() {
    let fresh: Four = MAX7219LedMat::new(());
    let mut m: Four = MAX7219LedMat::new(());
    m.draw_iter(&[px(0, 0, true), px(31, 7, true), px(12, 3, true), px(40, 2, true)]);
    assert_ne!(m.flush_frames(), fresh.flush_frames());
    m.clear();
    assert_eq!(m.flush_frames(), fresh.flush_frames());
}

#[test]
fn draw_iter_applies_in_order_and_skips_outside() {
    let mut m: Two = MAX7219LedMat::new(());
    m.draw_iter(&[px(1, 1, true), px(1, 1, false), px(2, 2, true), px(-3, 2, true), px(16, 2, true)]);
    assert_eq!(m.get_pixel(1, 1), Some(false));
    assert_eq!(m.get_pixel(2, 2), Some(true));
    assert_eq!(m.row_frame(2), vec![3, 0, 3, 0x20]);
}

#[test]
fn size_is_eight_columns_per_module() {
    let m: Four = MAX7219LedMat::new(());
    assert_eq!(m.size(), (32, 8));
    let m: One = MAX7219LedMat::new(());
    assert_eq!(m.size(), (8, 8));
}

#[test]
fn command_bytes() {
    assert_eq!(power_mode_command(Shutdown::NormalOperation), vec![0x0C, 0x01]);
    assert_eq!(power_mode_command(Shutdown::ShutDownMode), vec![0x0C, 0x00]);
    assert_eq!(decode_mode_command(DecodeMode::CodeB70), vec![0x09, 0xFF]);
    assert_eq!(decode_mode_command(DecodeMode::CodeB30), vec![0x09, 0x0F]);
    assert_eq!(scan_limit_command(ScanLimit::Display0To3), vec![0x0B, 0x03]);
    assert_eq!(intensity_command(Intensity::Max), vec![0x0A, 0x0F]);
    assert_eq!(intensity_command(Intensity::Ratio17_32), vec![0x0A, 0x08]);
    assert_eq!(command_frame(Command::DisplayTest, 1), vec![0x0F, 0x01]);
    assert_eq!(command_frame(Command::NoOp, 0), vec![0x00, 0x00]);
    assert_eq!(Command::Intensity.address(), 0x0A);
}
