//! The general laws of the scan: what a well-formed part yields, what a
//! malformed part yields, that scanning composes over concatenation of the
//! input, and that extraction is deterministic.
use vstd::prelude::*;
use crate::scanner::ImageModel;
use crate::scanner::ScanNote;
use crate::scanner::ScanPhase;
use crate::scanner::ScanResultModel;
use crate::scanner::ScanStateModel;
use crate::scanner::base64_encoding_line;
use crate::scanner::initial_model;
use crate::scanner::jpeg_type_line;
use crate::scanner::name_prefix;
use crate::scanner::spec_extract;
use crate::scanner::spec_has_prefix;
use crate::scanner::spec_scan;
use crate::scanner::spec_step;

verus! {

/// Well-formedness of a scan state: the payload is only ever non-empty while
/// the payload section is being read, and the name is only ever non-empty
/// once the name header has been read.
pub open spec fn state_wf(s: ScanStateModel) -> bool {
    &&& (s.phase is ReadingPayload || s.payload.len() == 0)
    &&& ((s.phase is LookingForImagePart || s.phase is VerifyingBase64Encoding
        || s.phase is LookingForImageName) ==> s.name.len() == 0)
}

/// Every transition keeps the scan state well-formed.
pub proof fn lemma_step_preserves_wf(s: ScanStateModel, line: Seq<u8>)
    requires
        state_wf(s),
    ensures
        state_wf(spec_step(s, line).state),
{
}

/// Scanning composes: scanning `a + b` is scanning `a`, then scanning `b`
/// from the state `a` left behind, with the images and notes of both runs in
/// order.
pub proof fn lemma_scan_append(s: ScanStateModel, a: Seq<Seq<u8>>, b: Seq<Seq<u8>>)
    ensures
        spec_scan(s, a + b).state == spec_scan(spec_scan(s, a).state, b).state,
        spec_scan(s, a + b).images == spec_scan(s, a).images + spec_scan(
            spec_scan(s, a).state,
            b,
        ).images,
        spec_scan(s, a + b).notes == spec_scan(s, a).notes + spec_scan(
            spec_scan(s, a).state,
            b,
        ).notes,
    decreases a.len(),
{
    if a.len() == 0 {
        assert(a + b =~= b);
        assert(spec_scan(s, a).images + spec_scan(s, b).images =~= spec_scan(s, b).images);
        assert(spec_scan(s, a).notes + spec_scan(s, b).notes =~= spec_scan(s, b).notes);
    } else {
        let first = spec_step(s, a[0]);
        let a1 = a.subrange(1, a.len() as int);
        lemma_scan_append(first.state, a1, b);
        assert((a + b)[0] == a[0]);
        assert((a + b).subrange(1, (a + b).len() as int) =~= a1 + b);
        assert(spec_scan(s, a + b).images =~= spec_scan(s, a).images + spec_scan(
            spec_scan(s, a).state,
            b,
        ).images);
        assert(spec_scan(s, a + b).notes =~= spec_scan(s, a).notes + spec_scan(
            spec_scan(s, a).state,
            b,
        ).notes);
    }
}

/// All lines of a payload section are non-blank.
pub open spec fn payload_lines_ok(payload: Seq<Seq<u8>>) -> bool {
    forall|i: int| 0 <= i < payload.len() ==> payload[i].len() > 0
}

/// The four header lines that open a well-formed part carrying `name`.
pub open spec fn part_header_lines(name: Seq<u8>) -> Seq<Seq<u8>> {
    seq![
        jpeg_type_line(),
        base64_encoding_line(),
        name_prefix() + name,
        Seq::<u8>::empty(),
    ]
}

/// The lines of one whole well-formed part: the headers, the payload lines,
/// and the terminating blank line.
pub open spec fn part_lines(name: Seq<u8>, payload: Seq<Seq<u8>>) -> Seq<Seq<u8>> {
    part_header_lines(name) + payload + seq![Seq::<u8>::empty()]
}

/// Scanning the header lines of a part from a fresh state reaches the
/// payload-reading phase with the part's name recorded, emitting nothing.
proof fn lemma_header_lines(name: Seq<u8>)
    ensures
        spec_scan(initial_model(), part_header_lines(name)) == (ScanResultModel {
            state: ScanStateModel {
                name,
                payload: Seq::empty(),
                phase: ScanPhase::ReadingPayload,
            },
            images: Seq::empty(),
            notes: Seq::empty(),
        }),
{
    reveal_with_fuel(spec_scan, 6);
    let l = part_header_lines(name);
    let s0 = initial_model();
    let s1 = spec_step(s0, l[0]).state;
    let l1 = l.subrange(1, 4);
    assert(l1 =~= seq![base64_encoding_line(), name_prefix() + name, Seq::<u8>::empty()]);
    let s2 = spec_step(s1, l1[0]).state;
    let l2 = l1.subrange(1, 3);
    assert(l2 =~= seq![name_prefix() + name, Seq::<u8>::empty()]);
    assert(spec_has_prefix(l2[0], name_prefix())) by {
        assert((name_prefix() + name).subrange(0, name_prefix().len() as int) =~= name_prefix());
    }
    let s3 = spec_step(s2, l2[0]).state;
    assert(s3.name =~= name) by {
        assert((name_prefix() + name).subrange(
            name_prefix().len() as int,
            (name_prefix() + name).len() as int,
        ) =~= name);
    }
    let l3 = l2.subrange(1, 2);
    assert(l3 =~= seq![Seq::<u8>::empty()]);
    let s4 = spec_step(s3, l3[0]).state;
    let l4 = l3.subrange(1, 1);
    assert(l4 =~= Seq::<Seq<u8>>::empty());
    assert(spec_scan(s4, l4).state == s4);
    assert(spec_scan(initial_model(), l).state =~= ScanStateModel {
        name,
        payload: Seq::empty(),
        phase: ScanPhase::ReadingPayload,
    });
    assert(spec_scan(initial_model(), l).images =~= Seq::<ImageModel>::empty());
    assert(spec_scan(initial_model(), l).notes =~= Seq::<ScanNote>::empty());
}

/// While the payload section is being read, non-blank lines only accumulate:
/// no image and no diagnostic is produced, and the payload grows by exactly
/// the lines' bytes in order.  In particular an input that ends here — with
/// no terminating blank line — yields nothing for the part in flight.
pub proof fn lemma_reading_payload(name: Seq<u8>, acc: Seq<u8>, payload: Seq<Seq<u8>>)
    requires
        payload_lines_ok(payload),
    ensures
        spec_scan(
            ScanStateModel { name, payload: acc, phase: ScanPhase::ReadingPayload },
            payload,
        ) == (ScanResultModel {
            state: ScanStateModel {
                name,
                payload: acc + payload.flatten(),
                phase: ScanPhase::ReadingPayload,
            },
            images: Seq::empty(),
            notes: Seq::empty(),
        }),
    decreases payload.len(),
{
    let s = ScanStateModel { name, payload: acc, phase: ScanPhase::ReadingPayload };
    if payload.len() == 0 {
        assert(acc + payload.flatten() =~= acc);
        assert(spec_scan(s, payload).state =~= ScanStateModel {
            name,
            payload: acc + payload.flatten(),
            phase: ScanPhase::ReadingPayload,
        });
    } else {
        let rest = payload.subrange(1, payload.len() as int);
        assert(payload[0].len() > 0);
        let s1 = spec_step(s, payload[0]).state;
        assert(s1 == ScanStateModel {
            name,
            payload: acc + payload[0],
            phase: ScanPhase::ReadingPayload,
        });
        lemma_reading_payload(name, acc + payload[0], rest);
        assert(payload.drop_first() == rest);
        assert((acc + payload[0]) + rest.flatten() =~= acc + payload.flatten());
        assert(spec_scan(s, payload).images =~= Seq::<ImageModel>::empty());
        assert(spec_scan(s, payload).notes =~= Seq::<ScanNote>::empty());
    }
}

/// A well-formed part — the exact header sequence, one or more non-blank
/// payload lines, and a terminating blank line — yields exactly one image,
/// whose name is the name header's value and whose data is the concatenation
/// of the payload lines in order; no diagnostic arises, and the scan is back
/// in a fresh state afterwards.
pub proof fn lemma_well_formed_part(name: Seq<u8>, payload: Seq<Seq<u8>>)
    requires
        payload.len() > 0,
        payload_lines_ok(payload),
    ensures
        spec_scan(initial_model(), part_lines(name, payload)) == (ScanResultModel {
            state: initial_model(),
            images: seq![ImageModel { name, data: payload.flatten() }],
            notes: Seq::empty(),
        }),
{
    reveal_with_fuel(spec_scan, 3);
    let header = part_header_lines(name);
    let blank = seq![Seq::<u8>::empty()];
    let tail = payload + blank;
    lemma_header_lines(name);
    lemma_scan_append(initial_model(), header, tail);
    assert(part_lines(name, payload) =~= header + tail);
    let read_state = ScanStateModel {
        name,
        payload: Seq::empty(),
        phase: ScanPhase::ReadingPayload,
    };
    lemma_scan_append(read_state, payload, blank);
    lemma_reading_payload(name, Seq::empty(), payload);
    let full_state = ScanStateModel {
        name,
        payload: Seq::empty() + payload.flatten(),
        phase: ScanPhase::ReadingPayload,
    };
    assert(Seq::<u8>::empty() + payload.flatten() =~= payload.flatten());
    let final_step = spec_step(full_state, blank[0]);
    assert(final_step.emitted == Some(ImageModel { name, data: payload.flatten() }));
    assert(blank.subrange(1, 1) =~= Seq::<Seq<u8>>::empty());
    assert(spec_scan(full_state, blank).images =~= seq![
        ImageModel { name, data: payload.flatten() },
    ]);
    assert(spec_scan(full_state, blank).notes =~= Seq::<ScanNote>::empty());
    assert(spec_scan(initial_model(), part_lines(name, payload)).images =~= seq![
        ImageModel { name, data: payload.flatten() },
    ]);
    assert(spec_scan(initial_model(), part_lines(name, payload)).notes
        =~= Seq::<ScanNote>::empty());
}

/// A line that deviates from the expected one at a checkpoint of the header
/// sequence or at the blank separator.
pub open spec fn deviating_line(s: ScanStateModel, line: Seq<u8>) -> bool {
    match s.phase {
        ScanPhase::VerifyingBase64Encoding => line != base64_encoding_line(),
        ScanPhase::LookingForImageName => !spec_has_prefix(line, name_prefix()),
        ScanPhase::AwaitingPayloadStart => line.len() != 0,
        _ => false,
    }
}

/// A single deviation at any checkpoint of a part in flight emits no image,
/// raises a diagnostic, and puts the scan back in a fresh state — so
/// scanning resumes cleanly for the next candidate part.
pub proof fn lemma_deviation_resets(s: ScanStateModel, line: Seq<u8>)
    requires
        deviating_line(s, line),
    ensures
        spec_step(s, line).state == initial_model(),
        spec_step(s, line).emitted is None,
        spec_step(s, line).note is Some,
{
}

/// A line other than the part-opening header leaves the searching state
/// untouched and produces nothing.
pub proof fn lemma_non_candidate_ignored(s: ScanStateModel, line: Seq<u8>)
    requires
        s.phase is LookingForImagePart,
        line != jpeg_type_line(),
    ensures
        spec_step(s, line).state == s,
        spec_step(s, line).emitted is None,
        spec_step(s, line).note is None,
{
}

/// An input with no part-opening header line at all yields an empty result —
/// no images and no diagnostics — and leaves the scan in its fresh state.
pub proof fn lemma_no_candidates(lines: Seq<Seq<u8>>)
    requires
        forall|i: int| 0 <= i < lines.len() ==> lines[i] != jpeg_type_line(),
    ensures
        spec_scan(initial_model(), lines) == (ScanResultModel {
            state: initial_model(),
            images: Seq::empty(),
            notes: Seq::empty(),
        }),
    decreases lines.len(),
{
    if lines.len() == 0 {
        assert(spec_scan(initial_model(), lines) =~= ScanResultModel {
            state: initial_model(),
            images: Seq::empty(),
            notes: Seq::empty(),
        });
    } else {
        lemma_non_candidate_ignored(initial_model(), lines[0]);
        lemma_no_candidates(lines.subrange(1, lines.len() as int));
        assert(spec_scan(initial_model(), lines).images =~= Seq::<ImageModel>::empty());
        assert(spec_scan(initial_model(), lines).notes =~= Seq::<ScanNote>::empty());
    }
}

/// An input that ends mid-payload — a well-formed part opening with no
/// terminating blank line — yields no image for that trailing partial part.
pub proof fn lemma_unterminated_part_yields_nothing(name: Seq<u8>, payload: Seq<Seq<u8>>)
    requires
        payload_lines_ok(payload),
    ensures
        spec_scan(initial_model(), part_header_lines(name) + payload).images == Seq::<
            ImageModel,
        >::empty(),
{
    lemma_header_lines(name);
    lemma_scan_append(initial_model(), part_header_lines(name), payload);
    lemma_reading_payload(name, Seq::empty(), payload);
    assert(spec_scan(initial_model(), part_header_lines(name) + payload).images =~= Seq::<
        ImageModel,
    >::empty());
}

/// Extraction is a function of the input lines alone: two runs over the same
/// unmodified input yield identical ordered output.
pub proof fn lemma_extraction_idempotent(
    lines: Seq<Seq<u8>>,
    first_run: Seq<ImageModel>,
    second_run: Seq<ImageModel>,
)
    requires
        first_run == spec_extract(lines),
        second_run == spec_extract(lines),
    ensures
        first_run == second_run,
{
}

/// Two consecutive well-formed parts yield exactly their two images, in file
/// order: the fresh state a completed part leaves behind lets no state leak
/// into the next part.
pub proof fn lemma_two_parts_in_order(
    name1: Seq<u8>,
    payload1: Seq<Seq<u8>>,
    name2: Seq<u8>,
    payload2: Seq<Seq<u8>>,
)
    requires
        payload1.len() > 0,
        payload_lines_ok(payload1),
        payload2.len() > 0,
        payload_lines_ok(payload2),
    ensures
        spec_extract(part_lines(name1, payload1) + part_lines(name2, payload2)) == seq![
            ImageModel { name: name1, data: payload1.flatten() },
            ImageModel { name: name2, data: payload2.flatten() },
        ],
{
    lemma_scan_append(initial_model(), part_lines(name1, payload1), part_lines(name2, payload2));
    lemma_well_formed_part(name1, payload1);
    lemma_well_formed_part(name2, payload2);
    assert(spec_extract(part_lines(name1, payload1) + part_lines(name2, payload2)) =~= seq![
        ImageModel { name: name1, data: payload1.flatten() },
        ImageModel { name: name2, data: payload2.flatten() },
    ]);
}

} // verus!
