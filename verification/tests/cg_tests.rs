use screenshot::cg::cg_assemble;
use screenshot::cg::size_matches;
use screenshot::cg::CgAction;
use screenshot::cg::CgCapture;
use screenshot::cg::CgEvent;
use screenshot::error::CaptureError;
use screenshot::frame::Screenshot;

#[test]
fn size_check_is_exact() {
    assert!(size_matches(2, 2, 32, 16));
    assert!(!size_matches(2, 2, 32, 15));
    assert!(!size_matches(2, 2, 32, 17));
    assert!(size_matches(0, 5, 32, 0));
    assert!(!size_matches(0, 5, 32, 1));
    assert!(size_matches(3, 1, 24, 9));
}

#[test]
fn assemble_keeps_bytes_in_order() {
    let bytes: Vec<u8> = (0u8..16u8).collect();
    let f = cg_assemble(2, 2, 8, 32, bytes).unwrap();
    assert_eq!(f.height(), 2);
    assert_eq!(f.width(), 2);
    assert_eq!(f.row_len(), 8);
    assert_eq!(f.pixel_width(), 4);
    let p = f.get_pixel(1, 1);
    assert_eq!((p.b, p.g, p.r, p.a), (12, 13, 14, 15));
}

#[test]
fn assemble_rejects_inconsistent_size() {
    let bytes = vec![0u8; 15];
    let r = cg_assemble(2, 2, 8, 32, bytes);
    assert_eq!(r.err(), Some(CaptureError::SizeMismatch));
}

struct FakeCg {
    count_err: i32,
    count: u32,
    list_err: i32,
    displays: Vec<u32>,
    width: usize,
    height: usize,
    row_len: usize,
    pixel_bits: usize,
    bytes: Vec<u8>,
    acquires: usize,
    releases: usize,
    created_display: Option<u32>,
}

impl FakeCg {
    fn working(displays: Vec<u32>, bytes: Vec<u8>) -> FakeCg {
        FakeCg {
            count_err: 0,
            count: displays.len() as u32,
            list_err: 0,
            displays,
            width: 2,
            height: 2,
            row_len: 8,
            pixel_bits: 32,
            bytes,
            acquires: 0,
            releases: 0,
            created_display: None,
        }
    }

    /// Runs one capture attempt against this instrumented fake backend,
    /// counting every native acquire and release the machine asks for.
    fn drive(&mut self, screen: usize) -> Result<Screenshot, CaptureError> {
        let (mut machine, mut action) = CgCapture::start(screen);
        loop {
            let event = match action {
                CgAction::QueryDisplayCount => {
                    CgEvent::CountQueried { err: self.count_err, count: self.count }
                }
                CgAction::QueryDisplayList { count } => {
                    assert_eq!(count, self.count);
                    CgEvent::ListQueried { err: self.list_err, displays: self.displays.clone() }
                }
                CgAction::CreateImage { display_id } => {
                    self.created_display = Some(display_id);
                    self.acquires += 1;
                    CgEvent::ImageCreated
                }
                CgAction::ReadImageInfo => CgEvent::InfoRead {
                    width: self.width,
                    height: self.height,
                    row_len: self.row_len,
                    pixel_bits: self.pixel_bits,
                },
                CgAction::CopyImageData => {
                    self.acquires += 1;
                    CgEvent::DataCopied { bytes: self.bytes.clone() }
                }
                CgAction::ReleaseImage => {
                    self.releases += 1;
                    CgEvent::ImageReleased
                }
                CgAction::ReleaseData => {
                    self.releases += 1;
                    CgEvent::DataReleased
                }
                CgAction::Finish(result) => return result,
            };
            let (next, next_action) = machine.step(event);
            machine = next;
            action = next_action;
        }
    }
}

#[test]
fn cg_machine_success_run_is_balanced() {
    let mut fake = FakeCg::working(vec![40, 41], (0u8..16u8).collect());
    let f = fake.drive(1).unwrap();
    assert_eq!(fake.created_display, Some(41));
    assert_eq!(fake.acquires, 2);
    assert_eq!(fake.releases, 2);
    assert_eq!((f.width(), f.height()), (2, 2));
    assert_eq!((f.row_len(), f.pixel_width()), (8, 4));
    // The copied bytes are kept in order, not reordered.
    let p = f.get_pixel(0, 0);
    assert_eq!((p.b, p.g, p.r, p.a), (0, 1, 2, 3));
}

#[test]
fn cg_machine_count_error_acquires_nothing() {
    let mut fake = FakeCg::working(vec![40], Vec::new());
    fake.count_err = 1000;
    let r = fake.drive(0);
    assert_eq!(r.err(), Some(CaptureError::DisplayEnumerationFailed));
    assert_eq!(fake.acquires, 0);
    assert_eq!(fake.releases, 0);
}

#[test]
fn cg_machine_list_error_acquires_nothing() {
    let mut fake = FakeCg::working(vec![40], Vec::new());
    fake.list_err = 1000;
    let r = fake.drive(0);
    assert_eq!(r.err(), Some(CaptureError::DisplayEnumerationFailed));
    assert_eq!(fake.acquires, 0);
    assert_eq!(fake.releases, 0);
}

#[test]
fn cg_machine_rejects_out_of_range_index() {
    let mut fake = FakeCg::working(vec![40], Vec::new());
    let r = fake.drive(1);
    assert_eq!(r.err(), Some(CaptureError::NoSuchDisplay));
    assert_eq!(fake.acquires, 0);
    assert_eq!(fake.releases, 0);
}

#[test]
fn cg_machine_non_byte_depth_releases_image() {
    let mut fake = FakeCg::working(vec![40], Vec::new());
    fake.pixel_bits = 15;
    let r = fake.drive(0);
    assert_eq!(r.err(), Some(CaptureError::NonBytePixelDepth));
    // Only the image was acquired; the data copy never ran.
    assert_eq!(fake.acquires, 1);
    assert_eq!(fake.releases, 1);
}

#[test]
fn cg_machine_size_mismatch_releases_both() {
    let mut fake = FakeCg::working(vec![40], vec![0u8; 7]);
    let r = fake.drive(0);
    assert_eq!(r.err(), Some(CaptureError::SizeMismatch));
    assert_eq!(fake.acquires, 2);
    assert_eq!(fake.releases, 2);
}
