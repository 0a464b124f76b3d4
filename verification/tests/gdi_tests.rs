use screenshot::error::CaptureError;
use screenshot::frame::Screenshot;
use screenshot::gdi::flip_rows;
use screenshot::gdi::gdi_assemble;
use screenshot::gdi::GdiAction;
use screenshot::gdi::GdiCapture;
use screenshot::gdi::GdiEvent;

#[test]
fn row_flip_synthetic() {
    // 2 rows x 1 pixel x 4 bytes, bottom-to-top.
    let r0g0b0a0 = [1u8, 2, 3, 4];
    let r1g1b1a1 = [5u8, 6, 7, 8];
    let mut bottom_up = Vec::new();
    bottom_up.extend_from_slice(&r0g0b0a0);
    bottom_up.extend_from_slice(&r1g1b1a1);
    let flipped = flip_rows(bottom_up, 2, 4);
    assert_eq!(&flipped[0..4], &r1g1b1a1);
    assert_eq!(&flipped[4..8], &r0g0b0a0);
}

#[test]
fn row_flip_moves_whole_rows() {
    // 3 rows x 2 bytes: rows must move whole, bytes inside a row kept.
    let data = vec![10u8, 11, 20, 21, 30, 31];
    let flipped = flip_rows(data, 3, 2);
    assert_eq!(flipped, vec![30, 31, 20, 21, 10, 11]);
}

#[test]
fn row_flip_single_row_is_identity() {
    let data = vec![9u8, 8, 7, 6];
    let flipped = flip_rows(data.clone(), 1, 4);
    assert_eq!(flipped, data);
}

#[test]
fn assemble_flips_and_annotates() {
    // 2 x 2 pixels delivered bottom-up.
    let bottom_up: Vec<u8> = (0u8..16u8).collect();
    let f = gdi_assemble(2, 2, bottom_up).unwrap();
    assert_eq!(f.height(), 2);
    assert_eq!(f.width(), 2);
    assert_eq!(f.row_len(), 8);
    assert_eq!(f.pixel_width(), 4);
    // Row 0 of the frame is the last delivered row, bytes 8..16.
    let p = f.get_pixel(0, 0);
    assert_eq!((p.b, p.g, p.r, p.a), (8, 9, 10, 11));
    let p = f.get_pixel(1, 1);
    assert_eq!((p.b, p.g, p.r, p.a), (4, 5, 6, 7));
}

#[test]
fn assemble_rejects_wrong_length() {
    let bytes = vec![0u8; 15];
    assert_eq!(gdi_assemble(2, 2, bytes).err(), Some(CaptureError::SizeMismatch));
}

struct FakeGdi {
    width: i32,
    height: i32,
    mem_dc_ok: bool,
    bitmap_ok: bool,
    select_ok: bool,
    blit_ok: bool,
    bits: Vec<u8>,
    acquires: usize,
    releases: usize,
}

impl FakeGdi {
    fn working(width: i32, height: i32, bits: Vec<u8>) -> FakeGdi {
        FakeGdi {
            width,
            height,
            mem_dc_ok: true,
            bitmap_ok: true,
            select_ok: true,
            blit_ok: true,
            bits,
            acquires: 0,
            releases: 0,
        }
    }

    /// Runs one capture attempt against this instrumented fake backend,
    /// counting every native acquire and release the machine asks for.
    fn drive(&mut self) -> Result<Screenshot, CaptureError> {
        let (mut machine, mut action) = GdiCapture::start();
        loop {
            let event = match action {
                GdiAction::AcquireScreenDc => {
                    self.acquires += 1;
                    GdiEvent::ScreenDcAcquired { width: self.width, height: self.height }
                }
                GdiAction::CreateMemDc => {
                    if self.mem_dc_ok {
                        self.acquires += 1;
                    }
                    GdiEvent::MemDcCreated { ok: self.mem_dc_ok }
                }
                GdiAction::CreateBitmap => {
                    if self.bitmap_ok {
                        self.acquires += 1;
                    }
                    GdiEvent::BitmapCreated { ok: self.bitmap_ok }
                }
                GdiAction::SelectBitmap => GdiEvent::BitmapSelected { ok: self.select_ok },
                GdiAction::Blit => GdiEvent::Blitted { ok: self.blit_ok },
                GdiAction::ReadBits => GdiEvent::BitsRead { data: self.bits.clone() },
                GdiAction::ReleaseScreenDc => {
                    self.releases += 1;
                    GdiEvent::ScreenDcReleased
                }
                GdiAction::ReleaseMemDc => {
                    self.releases += 1;
                    GdiEvent::MemDcReleased
                }
                GdiAction::ReleaseBitmap => {
                    self.releases += 1;
                    GdiEvent::BitmapReleased
                }
                GdiAction::Finish(result) => return result,
            };
            let (next, next_action) = machine.step(event);
            machine = next;
            action = next_action;
        }
    }
}

#[test]
fn machine_success_run_is_balanced() {
    let mut fake = FakeGdi::working(2, 2, (0u8..16u8).collect());
    let f = fake.drive().unwrap();
    assert_eq!(fake.acquires, 3);
    assert_eq!(fake.releases, 3);
    assert_eq!((f.width(), f.height()), (2, 2));
    let p = f.get_pixel(0, 1);
    assert_eq!((p.b, p.g, p.r, p.a), (12, 13, 14, 15));
}

#[test]
fn machine_bad_metrics_reports_enumeration_failure() {
    let mut fake = FakeGdi::working(0, 2, Vec::new());
    let r = fake.drive();
    assert_eq!(r.err(), Some(CaptureError::DisplayEnumerationFailed));
    assert_eq!(fake.acquires, 1);
    assert_eq!(fake.releases, 1);
}

#[test]
fn machine_context_failure_is_balanced() {
    let mut fake = FakeGdi::working(2, 2, Vec::new());
    fake.mem_dc_ok = false;
    let r = fake.drive();
    assert_eq!(r.err(), Some(CaptureError::ContextCreationFailed));
    assert_eq!(fake.acquires, 1);
    assert_eq!(fake.releases, 1);
}

#[test]
fn machine_bitmap_failure_is_balanced() {
    let mut fake = FakeGdi::working(2, 2, Vec::new());
    fake.bitmap_ok = false;
    let r = fake.drive();
    assert_eq!(r.err(), Some(CaptureError::BitmapCreationFailed));
    assert_eq!(fake.acquires, 2);
    assert_eq!(fake.releases, 2);
}

#[test]
fn machine_select_failure_is_balanced() {
    let mut fake = FakeGdi::working(2, 2, Vec::new());
    fake.select_ok = false;
    let r = fake.drive();
    assert_eq!(r.err(), Some(CaptureError::BitmapSelectionFailed));
    assert_eq!(fake.acquires, 3);
    assert_eq!(fake.releases, 3);
}

#[test]
fn machine_blit_failure_is_balanced() {
    let mut fake = FakeGdi::working(2, 2, Vec::new());
    fake.blit_ok = false;
    let r = fake.drive();
    assert_eq!(r.err(), Some(CaptureError::CopyFailed));
    assert_eq!(fake.acquires, 3);
    assert_eq!(fake.releases, 3);
}

#[test]
fn machine_size_mismatch_still_releases() {
    let mut fake = FakeGdi::working(2, 2, vec![0u8; 5]);
    let r = fake.drive();
    assert_eq!(r.err(), Some(CaptureError::SizeMismatch));
    assert_eq!(fake.acquires, 3);
    assert_eq!(fake.releases, 3);
}
