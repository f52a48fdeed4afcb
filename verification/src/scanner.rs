//! Line-oriented extraction of base64-encoded JPEG parts from an
//! MHTML-style archive.
//!
//! The scan is a finite-state machine driven one line at a time.  A part is
//! recognised by the exact header line `Content-Type: image/jpeg`, followed by
//! the exact line `Content-Transfer-Encoding: base64`, a `Content-Location: `
//! line carrying the target name, and a blank line; the payload is every
//! following non-blank line, and a blank line completes the part.  Any
//! deviation discards the part in flight and restarts the search.
use vstd::prelude::*;
use vstd::string::StringSliceAdditionalSpecFns;
use vstd::slice::slice_subrange;
use vstd::slice::slice_to_vec;
use vstd::slice::slice_index_get;

verus! {

/// Position of the scan inside a single part.  Exactly one phase is active at
/// a time; only one part is ever in flight.
#[derive(Clone, Copy, Debug, PartialEq, Eq, Structural)]
pub enum ScanPhase {
    LookingForImagePart,
    VerifyingBase64Encoding,
    LookingForImageName,
    AwaitingPayloadStart,
    ReadingPayload,
}

/// The non-fatal diagnostics: each names the checkpoint at which a part in
/// flight was discarded.
#[derive(Clone, Copy, Debug, PartialEq, Eq, Structural)]
pub enum ScanNote {
    /// The transfer encoding header was not the base64 one.
    NonBase64Part,
    /// The name header was missing where one was expected.
    MissingImageName,
    /// A blank separator line was missing before the payload.
    MissingBlankLine,
}

/// The working record for the part currently being parsed.
pub struct ScanState {
    /// Target file name, empty until the name header has been read.
    pub name: Vec<u8>,
    /// Accumulated payload bytes (still base64 text), line terminators
    /// stripped, empty until reading has begun.
    pub payload: Vec<u8>,
    pub phase: ScanPhase,
}

/// A completed part: the target name and the still-base64-encoded payload.
#[derive(Debug, Clone, PartialEq, Eq)]
pub struct ExtractedImage {
    pub name: Vec<u8>,
    pub data: Vec<u8>,
}

/// Mathematical value of a [`ScanState`].
pub struct ScanStateModel {
    pub name: Seq<u8>,
    pub payload: Seq<u8>,
    pub phase: ScanPhase,
}

/// Mathematical value of an [`ExtractedImage`].
pub struct ImageModel {
    pub name: Seq<u8>,
    pub data: Seq<u8>,
}

impl View for ScanState {
    type V = ScanStateModel;

    open spec fn view(&self) -> ScanStateModel {
        ScanStateModel { name: self.name@, payload: self.payload@, phase: self.phase }
    }
}

impl View for ExtractedImage {
    type V = ImageModel;

    open spec fn view(&self) -> ImageModel {
        ImageModel { name: self.name@, data: self.data@ }
    }
}

/// The header line that opens a part.
pub open spec fn jpeg_type_line() -> Seq<u8> {
    "Content-Type: image/jpeg".spec_bytes()
}

/// The transfer-encoding header a part must carry.
pub open spec fn base64_encoding_line() -> Seq<u8> {
    "Content-Transfer-Encoding: base64".spec_bytes()
}

/// The literal prefix of the line that carries the target name.
pub open spec fn name_prefix() -> Seq<u8> {
    "Content-Location: ".spec_bytes()
}

/// The state a scan starts from, and returns to after a completed or
/// discarded part.
pub open spec fn initial_model() -> ScanStateModel {
    ScanStateModel {
        name: Seq::empty(),
        payload: Seq::empty(),
        phase: ScanPhase::LookingForImagePart,
    }
}

pub open spec fn spec_has_prefix(line: Seq<u8>, prefix: Seq<u8>) -> bool {
    line.len() >= prefix.len() && line.subrange(0, prefix.len() as int) == prefix
}

/// Everything one transition of the machine produces.
pub struct StepModel {
    pub state: ScanStateModel,
    pub emitted: Option<ImageModel>,
    pub note: Option<ScanNote>,
}

/// The transition table: one line moves the machine from `s` to the next
/// state, possibly emitting a completed image or a diagnostic.
pub open spec fn spec_step(s: ScanStateModel, line: Seq<u8>) -> StepModel {
    match s.phase {
        ScanPhase::LookingForImagePart => if line == jpeg_type_line() {
            StepModel {
                state: ScanStateModel { phase: ScanPhase::VerifyingBase64Encoding, ..s },
                emitted: None,
                note: None,
            }
        } else {
            StepModel { state: s, emitted: None, note: None }
        },
        ScanPhase::VerifyingBase64Encoding => if line == base64_encoding_line() {
            StepModel {
                state: ScanStateModel { phase: ScanPhase::LookingForImageName, ..s },
                emitted: None,
                note: None,
            }
        } else {
            StepModel { state: initial_model(), emitted: None, note: Some(ScanNote::NonBase64Part) }
        },
        ScanPhase::LookingForImageName => if spec_has_prefix(line, name_prefix()) {
            StepModel {
                state: ScanStateModel {
                    name: line.subrange(name_prefix().len() as int, line.len() as int),
                    payload: s.payload,
                    phase: ScanPhase::AwaitingPayloadStart,
                },
                emitted: None,
                note: None,
            }
        } else {
            StepModel {
                state: initial_model(),
                emitted: None,
                note: Some(ScanNote::MissingImageName),
            }
        },
        ScanPhase::AwaitingPayloadStart => if line.len() == 0 {
            StepModel {
                state: ScanStateModel { phase: ScanPhase::ReadingPayload, ..s },
                emitted: None,
                note: None,
            }
        } else {
            StepModel {
                state: initial_model(),
                emitted: None,
                note: Some(ScanNote::MissingBlankLine),
            }
        },
        ScanPhase::ReadingPayload => if line.len() == 0 {
            StepModel {
                state: initial_model(),
                emitted: Some(ImageModel { name: s.name, data: s.payload }),
                note: None,
            }
        } else {
            StepModel {
                state: ScanStateModel { payload: s.payload + line, ..s },
                emitted: None,
                note: None,
            }
        },
    }
}

impl ScanState {
    /// A fresh state, as at scan start and after every reset.
    pub fn new() -> (s: ScanState)
        ensures
            s@ == initial_model(),
    {
        let s = ScanState {
            name: Vec::new(),
            payload: Vec::new(),
            phase: ScanPhase::LookingForImagePart,
        };
        proof {
            assert(s@ =~= initial_model());
        }
        s
    }
}

fn bytes_eq(a: &[u8], b: &[u8]) -> (r: bool)
    ensures
        r == (a@ == b@),
{
    if a.len() != b.len() {
        return false;
    }
    let mut i: usize = 0;
    while i < a.len()
        invariant
            i <= a@.len(),
            a@.len() == b@.len(),
            forall|j: int| 0 <= j < i ==> a@[j] == b@[j],
        decreases a@.len() - i,
    {
        if *slice_index_get(a, i) != *slice_index_get(b, i) {
            return false;
        }
        i = i + 1;
    }
    proof {
        assert(a@ =~= b@);
    }
    true
}

fn bytes_have_prefix(line: &[u8], prefix: &[u8]) -> (r: bool)
    ensures
        r == spec_has_prefix(line@, prefix@),
{
    if line.len() < prefix.len() {
        return false;
    }
    bytes_eq(slice_subrange(line, 0, prefix.len()), prefix)
}

/// The result of a whole scan: the final machine state, the completed images
/// in the order their terminating blank line was met, and the diagnostics in
/// the order they arose.
pub struct ScanResultModel {
    pub state: ScanStateModel,
    pub images: Seq<ImageModel>,
    pub notes: Seq<ScanNote>,
}

pub open spec fn opt_seq<T>(o: Option<T>) -> Seq<T> {
    match o {
        Some(x) => seq![x],
        None => Seq::empty(),
    }
}

/// Folding the step function over a sequence of lines.
pub open spec fn spec_scan(s: ScanStateModel, lines: Seq<Seq<u8>>) -> ScanResultModel
    decreases lines.len(),
{
    if lines.len() == 0 {
        ScanResultModel { state: s, images: Seq::empty(), notes: Seq::empty() }
    } else {
        let first = spec_step(s, lines[0]);
        let rest = spec_scan(first.state, lines.subrange(1, lines.len() as int));
        ScanResultModel {
            state: rest.state,
            images: opt_seq(first.emitted) + rest.images,
            notes: opt_seq(first.note) + rest.notes,
        }
    }
}

/// The images a whole scan of `lines` yields, starting from a fresh state.
pub open spec fn spec_extract(lines: Seq<Seq<u8>>) -> Seq<ImageModel> {
    spec_scan(initial_model(), lines).images
}

/// The byte sequences of a vector of lines.
pub open spec fn lines_view(lines: Seq<Vec<u8>>) -> Seq<Seq<u8>> {
    lines.map_values(|l: Vec<u8>| l@)
}

/// The models of a vector of extracted images.
pub open spec fn images_view(images: Seq<ExtractedImage>) -> Seq<ImageModel> {
    images.map_values(|img: ExtractedImage| img@)
}

/// One transition of the machine on one line: the pure step function
/// `(state, line) -> (new state, emitted entry, diagnostic)`.
pub fn step(state: ScanState, line: &Vec<u8>) -> (r: (
    ScanState,
    Option<ExtractedImage>,
    Option<ScanNote>,
))
    ensures
        r.0@ == spec_step(state@, line@).state,
        (r.1 matches Some(img) ==> spec_step(state@, line@).emitted == Some(img@)),
        (r.1 is None ==> spec_step(state@, line@).emitted is None),
        r.2 == spec_step(state@, line@).note,
{
    match state.phase {
        ScanPhase::LookingForImagePart => {
            if bytes_eq(line.as_slice(), "Content-Type: image/jpeg".as_bytes()) {
                (
                    ScanState { phase: ScanPhase::VerifyingBase64Encoding, ..state },
                    None,
                    None,
                )
            } else {
                (state, None, None)
            }
        },
        ScanPhase::VerifyingBase64Encoding => {
            if bytes_eq(line.as_slice(), "Content-Transfer-Encoding: base64".as_bytes()) {
                (ScanState { phase: ScanPhase::LookingForImageName, ..state }, None, None)
            } else {
                (ScanState::new(), None, Some(ScanNote::NonBase64Part))
            }
        },
        ScanPhase::LookingForImageName => {
            let prefix = "Content-Location: ".as_bytes();
            if bytes_have_prefix(line.as_slice(), prefix) {
                let name = slice_to_vec(slice_subrange(line.as_slice(), prefix.len(), line.len()));
                (
                    ScanState { name, payload: state.payload, phase: ScanPhase::AwaitingPayloadStart },
                    None,
                    None,
                )
            } else {
                (ScanState::new(), None, Some(ScanNote::MissingImageName))
            }
        },
        ScanPhase::AwaitingPayloadStart => {
            if line.len() == 0 {
                (ScanState { phase: ScanPhase::ReadingPayload, ..state }, None, None)
            } else {
                (ScanState::new(), None, Some(ScanNote::MissingBlankLine))
            }
        },
        ScanPhase::ReadingPayload => {
            if line.len() == 0 {
                (
                    ScanState::new(),
                    Some(ExtractedImage { name: state.name, data: state.payload }),
                    None,
                )
            } else {
                let mut payload = state.payload;
                let mut tail = slice_to_vec(line.as_slice());
                payload.append(&mut tail);
                (
                    ScanState { name: state.name, payload, phase: ScanPhase::ReadingPayload },
                    None,
                    None,
                )
            }
        },
    }
}

/// Scans all lines and returns the completed images, in the order their
/// terminating blank line was encountered, together with the diagnostics for
/// the parts that were discarded.  An in-flight partial part at end of input
/// yields nothing.
pub fn extract(lines: &Vec<Vec<u8>>) -> (r: (Vec<ExtractedImage>, Vec<ScanNote>))
    ensures
        images_view(r.0@) == spec_extract(lines_view(lines@)),
        r.1@ == spec_scan(initial_model(), lines_view(lines@)).notes,
{
    let ghost all: Seq<Seq<u8>> = lines_view(lines@);
    let mut images: Vec<ExtractedImage> = Vec::new();
    let mut notes: Vec<ScanNote> = Vec::new();
    let mut state = ScanState::new();
    let mut i: usize = 0;
    proof {
        assert(all.subrange(0, all.len() as int) =~= all);
        assert(images_view(images@) =~= Seq::<ImageModel>::empty());
    }
    while i < lines.len()
        invariant
            i <= lines.len(),
            all == lines_view(lines@),
            all.len() == lines@.len(),
            spec_scan(initial_model(), all).state == spec_scan(
                state@,
                all.subrange(i as int, all.len() as int),
            ).state,
            spec_scan(initial_model(), all).images == images_view(images@) + spec_scan(
                state@,
                all.subrange(i as int, all.len() as int),
            ).images,
            spec_scan(initial_model(), all).notes == notes@ + spec_scan(
                state@,
                all.subrange(i as int, all.len() as int),
            ).notes,
        decreases lines@.len() - i,
    {
        let ghost suffix = all.subrange(i as int, all.len() as int);
        let ghost pre_state = state@;
        let ghost pre_images = images@;
        let ghost pre_notes = notes@;
        let (next, emitted, note) = step(state, &lines[i]);
        state = next;
        proof {
            assert(suffix[0] == all[i as int]);
            assert(suffix.subrange(1, suffix.len() as int) =~= all.subrange(
                i + 1,
                all.len() as int,
            ));
        }
        match emitted {
            Some(img) => {
                images.push(img);
                proof {
                    assert(images_view(images@) =~= images_view(pre_images).push(img@));
                    assert(opt_seq(spec_step(pre_state, all[i as int]).emitted) =~= seq![img@]);
                    assert(images_view(pre_images) + spec_scan(pre_state, suffix).images
                        =~= images_view(images@) + spec_scan(
                        state@,
                        all.subrange(i + 1, all.len() as int),
                    ).images);
                }
            },
            None => {
                proof {
                    assert(images_view(pre_images) + spec_scan(pre_state, suffix).images
                        =~= images_view(images@) + spec_scan(
                        state@,
                        all.subrange(i + 1, all.len() as int),
                    ).images);
                }
            },
        }
        match note {
            Some(n) => {
                notes.push(n);
                proof {
                    assert(pre_notes + spec_scan(pre_state, suffix).notes =~= notes@ + spec_scan(
                        state@,
                        all.subrange(i + 1, all.len() as int),
                    ).notes);
                }
            },
            None => {
                proof {
                    assert(pre_notes + spec_scan(pre_state, suffix).notes =~= notes@ + spec_scan(
                        state@,
                        all.subrange(i + 1, all.len() as int),
                    ).notes);
                }
            },
        }
        i = i + 1;
    }
    proof {
        assert(all.subrange(i as int, all.len() as int) =~= Seq::<Seq<u8>>::empty());
        assert(images_view(images@) + Seq::<ImageModel>::empty() =~= images_view(images@));
        assert(notes@ + Seq::<ScanNote>::empty() =~= notes@);
    }
    (images, notes)
}

} // verus!
