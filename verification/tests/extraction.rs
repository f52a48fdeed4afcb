use wsr_image::scanner::extract;
use wsr_image::scanner::step;
use wsr_image::scanner::ExtractedImage;
use wsr_image::scanner::ScanNote;
use wsr_image::scanner::ScanPhase;
use wsr_image::scanner::ScanState;

fn lines(text: &[&str]) -> Vec<Vec<u8>> {
    text.iter().map(|l| l.as_bytes().to_vec()).collect()
}

#[test]
fn scenario_a_single_part() {
    let input = lines(&[
        "Content-Type: image/jpeg",
        "Content-Transfer-Encoding: base64",
        "Content-Location: pic1.jpg",
        "",
        "aGVsbG8=",
        "",
    ]);
    let (images, notes) = extract(&input);
    assert_eq!(images.len(), 1);
    assert_eq!(images[0].name, b"pic1.jpg".to_vec());
    assert_eq!(images[0].data, b"aGVsbG8=".to_vec());
    assert_eq!(notes.len(), 0);
}

#[test]
fn scenario_b_non_base64_part_skipped() {
    let input = lines(&[
        "Content-Type: image/jpeg",
        "Content-Transfer-Encoding: quoted-printable",
        "Content-Location: pic1.jpg",
        "",
        "aGVsbG8=",
        "",
    ]);
    let (images, notes) = extract(&input);
    assert_eq!(images.len(), 0);
    assert_eq!(notes, vec![ScanNote::NonBase64Part]);
}

#[test]
fn scenario_d_two_consecutive_parts() {
    let input = lines(&[
        "Content-Type: image/jpeg",
        "Content-Transfer-Encoding: base64",
        "Content-Location: pic1.jpg",
        "",
        "aGVsbG8=",
        "",
        "Content-Type: image/jpeg",
        "Content-Transfer-Encoding: base64",
        "Content-Location: pic2.jpg",
        "",
        "d29ybGQ=",
        "",
    ]);
    let (images, notes) = extract(&input);
    assert_eq!(images.len(), 2);
    assert_eq!(images[0].name, b"pic1.jpg".to_vec());
    assert_eq!(images[0].data, b"aGVsbG8=".to_vec());
    assert_eq!(images[1].name, b"pic2.jpg".to_vec());
    assert_eq!(images[1].data, b"d29ybGQ=".to_vec());
    assert_eq!(notes.len(), 0);
}

#[test]
fn empty_input_yields_empty_result() {
    let input: Vec<Vec<u8>> = Vec::new();
    let (images, notes) = extract(&input);
    assert_eq!(images.len(), 0);
    assert_eq!(notes.len(), 0);
}

#[test]
fn no_matching_parts_yields_empty_result() {
    let input = lines(&[
        "Content-Type: text/html",
        "Content-Transfer-Encoding: base64",
        "",
        "some text",
        "",
    ]);
    let (images, notes) = extract(&input);
    assert_eq!(images.len(), 0);
    assert_eq!(notes.len(), 0);
}

#[test]
fn trailing_partial_part_yields_nothing() {
    let input = lines(&[
        "Content-Type: image/jpeg",
        "Content-Transfer-Encoding: base64",
        "Content-Location: pic1.jpg",
        "",
        "aGVsbG8=",
    ]);
    let (images, notes) = extract(&input);
    assert_eq!(images.len(), 0);
    assert_eq!(notes.len(), 0);
}

#[test]
fn missing_image_name_resets_and_scan_resumes() {
    let input = lines(&[
        "Content-Type: image/jpeg",
        "Content-Transfer-Encoding: base64",
        "X-Something: else",
        "Content-Type: image/jpeg",
        "Content-Transfer-Encoding: base64",
        "Content-Location: pic2.jpg",
        "",
        "d29ybGQ=",
        "",
    ]);
    let (images, notes) = extract(&input);
    assert_eq!(images.len(), 1);
    assert_eq!(images[0].name, b"pic2.jpg".to_vec());
    assert_eq!(notes, vec![ScanNote::MissingImageName]);
}

#[test]
fn missing_blank_line_resets() {
    let input = lines(&[
        "Content-Type: image/jpeg",
        "Content-Transfer-Encoding: base64",
        "Content-Location: pic1.jpg",
        "aGVsbG8=",
        "",
    ]);
    let (images, notes) = extract(&input);
    assert_eq!(images.len(), 0);
    assert_eq!(notes, vec![ScanNote::MissingBlankLine]);
}

#[test]
fn payload_lines_concatenate_without_separator() {
    let input = lines(&[
        "Content-Type: image/jpeg",
        "Content-Transfer-Encoding: base64",
        "Content-Location: big.jpg",
        "",
        "aGVs",
        "bG8=",
        "",
    ]);
    let (images, _notes) = extract(&input);
    assert_eq!(images.len(), 1);
    assert_eq!(images[0].data, b"aGVsbG8=".to_vec());
}

#[test]
fn extraction_is_idempotent() {
    let input = lines(&[
        "Content-Type: image/jpeg",
        "Content-Transfer-Encoding: base64",
        "Content-Location: pic1.jpg",
        "",
        "aGVsbG8=",
        "",
        "not a header",
        "Content-Type: image/jpeg",
        "Content-Transfer-Encoding: 7bit",
    ]);
    let (images1, notes1) = extract(&input);
    let (images2, notes2) = extract(&input);
    assert_eq!(images1, images2);
    assert_eq!(notes1, notes2);
}

#[test]
fn step_advances_on_part_header() {
    let state = ScanState::new();
    let line = b"Content-Type: image/jpeg".to_vec();
    let (next, emitted, note) = step(state, &line);
    assert_eq!(next.phase, ScanPhase::VerifyingBase64Encoding);
    assert!(emitted.is_none());
    assert!(note.is_none());
}

#[test]
fn step_ignores_other_lines_while_searching() {
    let state = ScanState::new();
    let line = b"Content-Type: image/png".to_vec();
    let (next, emitted, note) = step(state, &line);
    assert_eq!(next.phase, ScanPhase::LookingForImagePart);
    assert!(emitted.is_none());
    assert!(note.is_none());
}

#[test]
fn step_emits_on_blank_line_while_reading() {
    let state = ScanState {
        name: b"pic1.jpg".to_vec(),
        payload: b"aGVsbG8=".to_vec(),
        phase: ScanPhase::ReadingPayload,
    };
    let line: Vec<u8> = Vec::new();
    let (next, emitted, note) = step(state, &line);
    assert_eq!(next.phase, ScanPhase::LookingForImagePart);
    assert_eq!(next.name.len(), 0);
    assert_eq!(next.payload.len(), 0);
    assert_eq!(
        emitted,
        Some(ExtractedImage { name: b"pic1.jpg".to_vec(), data: b"aGVsbG8=".to_vec() })
    );
    assert!(note.is_none());
}
