//! The device session: what one request/response round trip sends and makes
//! of the answer, and the device operations as sequences of round trips.

use crate::color::OwnRGB8;
use crate::error::{CherryRgbError, UsbErrorKind};
use crate::leds::{all_black, flat_bytes, led_chunk, CustomKeyLeds};
use crate::models::{Brightness, Keymap, LightingMode, Speed};
use crate::checksum::{calc_checksum, checksum_of};
use crate::packet::{frame, packet_bytes, pad_report, parse_packet, parse_response, report_of};
use crate::payload::{Payload, PayloadType, PayloadView, ToVec};
use crate::transfer::{
    assemble_key_indexes,
    assemble_keymap,
    is_key_indexes_of,
    is_keymap_of,
    read_plan,
    read_requests,
    ReadKind,
    SendResult,
};
use vstd::prelude::*;
use vstd::slice::slice_subrange;
use vstd::string::*;

verus! {

/// USB vendor id of Cherry GmbH.
pub const CHERRY_USB_VID: u16 = 0x046a;

/// The interface that is claimed for the vendor protocol.
pub const INTERFACE_NUM: u8 = 1;

/// Address of the interrupt endpoint that responses are read from.
pub const INTERRUPT_EP: u8 = 0x82;

/// Control transfer request: SET_REPORT.
pub const CONTROL_REQUEST: u8 = 0x09;

/// Control transfer value: report id 4, report type output.
pub const CONTROL_VALUE: u16 = 0x0204;

/// Control transfer index.
pub const CONTROL_INDEX: u16 = 0x0001;

/// Timeout of each half of a round trip, in milliseconds.
pub const TIMEOUT_MS: u64 = 1000;

/// Timeout of a read for key events, in milliseconds.
pub const SHORT_TIMEOUT_MS: u64 = 100;

/// Pause between two reads for key events, in milliseconds.
pub const POLL_INTERVAL_MS: u64 = 100;

/// How the two transfers of one round trip went.
#[derive(Debug)]
pub enum TransferOutcome {
    /// The control write failed; nothing was read.
    WriteFailed(UsbErrorKind),
    /// The control write went through and the interrupt read failed.
    ReadFailed(UsbErrorKind),
    /// Both went through; these are the bytes that were read.
    Received(Vec<u8>),
}

/// The report that carries `payload`: its packet, with the checksum that
/// the payload gives, cut or filled with zeros to 64 bytes.
pub open spec fn request_bytes(payload: PayloadView) -> Seq<u8> {
    report_of(
        packet_bytes(
            checksum_of(payload.tag(), payload.body()) as u16,
            payload.tag(),
            payload.body(),
        ),
    )
}

/// The report to write for `payload`.
pub fn request_report(payload: &Payload) -> (report: Vec<u8>)
    ensures
        report@ == request_bytes(payload@),
{
    let body = payload.to_vec();
    let tag = payload.payload_type();
    let checksum = calc_checksum(tag, body.as_slice());
    let bytes = frame(checksum, tag, body.as_slice());
    pad_report(bytes.as_slice())
}

/// Whether `result` is what a round trip with this outcome gives: a failed
/// write or read is an error that says which half failed; bytes that were
/// read give the packet they hold, or no packet where they hold none.
pub open spec fn is_send_result(outcome: TransferOutcome, result: SendResult) -> bool {
    match outcome {
        TransferOutcome::WriteFailed(kind) => result matches Err(
            CherryRgbError::UsbError(text, k),
        ) && text@ == "Control Write failure"@ && k == kind,
        TransferOutcome::ReadFailed(kind) => result matches Err(CherryRgbError::UsbError(text, k))
            && text@ == "Interrupt read failure"@ && k == kind,
        TransferOutcome::Received(bytes) => match result {
            Ok(Some(packet)) => parse_packet(bytes@) == Some(
                (packet.stored_checksum(), packet.inner()@),
            ),
            Ok(None) => parse_packet(bytes@) is None,
            Err(_) => false,
        },
    }
}

/// What a round trip gave, from how its two transfers went.
pub fn send_result(outcome: TransferOutcome) -> (result: SendResult)
    ensures
        is_send_result(outcome, result),
{
    match outcome {
        TransferOutcome::WriteFailed(kind) => Err(
            CherryRgbError::UsbError(String::from_str("Control Write failure"), kind),
        ),
        TransferOutcome::ReadFailed(kind) => Err(
            CherryRgbError::UsbError(String::from_str("Interrupt read failure"), kind),
        ),
        TransferOutcome::Received(bytes) => Ok(parse_response(bytes.as_slice())),
    }
}

/// The payload that sets the animation as asked.
pub open spec fn primary_animation(
    mode: LightingMode,
    brightness: Brightness,
    speed: Speed,
    color: OwnRGB8,
    rainbow: bool,
) -> PayloadView {
    PayloadView::SetAnimation {
        unknown: seq![0x09u8, 0x00u8, 0x00u8, 0x55u8, 0x00u8],
        mode,
        brightness,
        speed,
        pad: 0,
        rainbow: if rainbow {
            1
        } else {
            0
        },
        color,
    }
}

/// The fixed payload that follows every animation payload.
pub open spec fn companion_animation() -> PayloadView {
    PayloadView::SetAnimation {
        unknown: seq![0x01u8, 0x18u8, 0x00u8, 0x55u8, 0x01u8],
        mode: LightingMode::Wave,
        brightness: Brightness::Off,
        speed: Speed::VeryFast,
        pad: 0,
        rainbow: 0,
        color: OwnRGB8::black(),
    }
}

/// The payloads that set the LED animation: begin, the animation, its fixed
/// companion, end.
pub open spec fn animation_plan(
    mode: LightingMode,
    brightness: Brightness,
    speed: Speed,
    color: OwnRGB8,
    rainbow: bool,
) -> Seq<PayloadView> {
    seq![
        PayloadView::TransactionStart,
        primary_animation(mode, brightness, speed, color, rainbow),
        companion_animation(),
        PayloadView::TransactionEnd,
    ]
}

/// The payloads that set the color of every key: the animation that
/// switches to per-key colors, then the table in chunks.
pub open spec fn custom_colors_plan(colors: Seq<OwnRGB8>) -> Seq<PayloadView> {
    animation_plan(
        LightingMode::Custom,
        Brightness::Full,
        Speed::Slow,
        OwnRGB8::black(),
        false,
    ) + Seq::new(7, |i: int| led_chunk(flat_bytes(colors), i))
}

/// The payloads that reset the color of every key: an all-black table, then
/// two fixed payloads.
pub open spec fn reset_plan() -> Seq<PayloadView> {
    custom_colors_plan(all_black()) + seq![
        PayloadView::Unknown5 { unk: 0x01 },
        PayloadView::Unknown5 { unk: 0x19 },
    ]
}

/// The payloads that fetch the device state: begin, a fixed first request,
/// the keymap reads, the key-index reads, end.
pub open spec fn fetch_plan() -> Seq<PayloadView> {
    seq![PayloadView::TransactionStart, PayloadView::Unknown3 { unk: 0x22 }] + read_plan(
        ReadKind::Keymap,
    ) + read_plan(ReadKind::KeyIndexes) + seq![PayloadView::TransactionEnd]
}

/// Whether a failed round trip for this payload is put up with: only the
/// reads of the keymap and of the key-index table are.
pub open spec fn best_effort(payload: PayloadView) -> bool {
    payload is GetKeymap || payload is GetKeyIndexes
}

/// The views of a sequence of payloads.
pub open spec fn views(steps: Seq<Payload>) -> Seq<PayloadView> {
    Seq::new(steps.len(), |i: int| steps[i]@)
}

/// What the device told of its state; each collection may have failed by
/// itself.
#[derive(Debug)]
pub struct DeviceState {
    pub keymap: Result<Vec<Option<Keymap>>, CherryRgbError>,
    pub key_indexes: Result<Vec<u8>, CherryRgbError>,
}

/// Whether `state` is what the round trips of a fetch gave: the keymap from
/// the responses to the third up to the ninth request, the key-index table
/// from those to the tenth up to the twelfth.
pub open spec fn is_state_of(results: Seq<SendResult>, state: DeviceState) -> bool {
    &&& is_keymap_of(results.subrange(2, 9), state.keymap)
    &&& is_key_indexes_of(results.subrange(9, 12), state.key_indexes)
}

/// A device operation under way: the payloads it sends, in order, what the
/// round trips made so far gave, and the error of a step that failed between
/// the begin and the end of the transaction. One payload is always pending.
#[derive(Debug)]
pub struct Session {
    steps: Vec<Payload>,
    results: Vec<SendResult>,
    fetch: bool,
    end_at: usize,
    failure: Option<CherryRgbError>,
}

/// The operation after one more round trip.
#[derive(Debug)]
pub enum Progress {
    /// There is more to send.
    Continue(Session),
    /// The operation is over. A fetch that went through brings the device
    /// state.
    Done(Result<Option<DeviceState>, CherryRgbError>),
}

impl Session {
    #[verifier::type_invariant]
    spec fn well_formed(self) -> bool {
        &&& self.results@.len() < self.steps@.len()
        &&& 0 < self.end_at < self.steps@.len()
        &&& self.steps@[self.end_at as int]@ is TransactionEnd
        &&& self.fetch ==> self.steps@.len() == 13
        &&& self.failure is Some ==> 0 < self.results@.len() < self.end_at
    }

    /// The payloads of the operation, in the order in which they are sent
    /// when no step fails.
    pub closed spec fn plan(self) -> Seq<PayloadView> {
        views(self.steps@)
    }

    /// What the round trips gave that were made before any step failed, in
    /// order.
    pub closed spec fn results(self) -> Seq<SendResult> {
        self.results@
    }

    /// Whether the operation fetches the device state.
    pub closed spec fn is_fetch(self) -> bool {
        self.fetch
    }

    /// The place of the end of the transaction in the plan.
    pub closed spec fn end_index(self) -> int {
        self.end_at as int
    }

    /// The error of the step that failed between the begin and the end of
    /// the transaction, if one did.
    pub closed spec fn failure(self) -> Option<CherryRgbError> {
        self.failure
    }

    /// Begin the operation that fetches the device state.
    pub fn fetch_device_state() -> (session: Self)
        ensures
            session.plan() == fetch_plan(),
            session.end_index() == 12,
            session.results().len() == 0,
            session.failure() is None,
            session.is_fetch(),
    {
        let mut steps: Vec<Payload> = Vec::new();
        steps.push(Payload::TransactionStart);
        steps.push(Payload::Unknown3 { unk: 0x22 });
        let mut keymap_reads = read_requests(ReadKind::Keymap);
        steps.append(&mut keymap_reads);
        let mut index_reads = read_requests(ReadKind::KeyIndexes);
        steps.append(&mut index_reads);
        steps.push(Payload::TransactionEnd);
        assert(views(steps@) =~= fetch_plan());
        assert(steps@.len() == 13);
        Session { steps, results: Vec::new(), fetch: true, end_at: 12, failure: None }
    }

    /// Begin the operation that sets the LED animation.
    pub fn set_led_animation(
        mode: LightingMode,
        brightness: Brightness,
        speed: Speed,
        color: OwnRGB8,
        rainbow: bool,
    ) -> (session: Self)
        ensures
            session.plan() == animation_plan(mode, brightness, speed, color, rainbow),
            session.end_index() == 3,
            session.results().len() == 0,
            session.failure() is None,
            !session.is_fetch(),
    {
        let steps = animation_steps(mode, brightness, speed, color, rainbow);
        assert(views(steps@).len() == 4);
        assert(views(steps@)[3] is TransactionEnd);
        Session { steps, results: Vec::new(), fetch: false, end_at: 3, failure: None }
    }

    /// Begin the operation that sets the color of every key.
    pub fn set_custom_colors(key_leds: CustomKeyLeds) -> (session: Self)
        ensures
            session.plan() == custom_colors_plan(key_leds@),
            session.end_index() == 3,
            session.results().len() == 0,
            session.failure() is None,
            !session.is_fetch(),
    {
        let steps = custom_colors_steps(key_leds);
        assert(views(steps@).len() == 11);
        assert(views(steps@)[3] is TransactionEnd);
        Session { steps, results: Vec::new(), fetch: false, end_at: 3, failure: None }
    }

    /// Begin the operation that resets the color of every key.
    pub fn reset_custom_colors() -> (session: Self)
        ensures
            session.plan() == reset_plan(),
            session.end_index() == 3,
            session.results().len() == 0,
            session.failure() is None,
            !session.is_fetch(),
    {
        let mut steps = custom_colors_steps(CustomKeyLeds::new());
        assert(views(steps@)[3] is TransactionEnd);
        steps.push(Payload::Unknown5 { unk: 0x01 });
        steps.push(Payload::Unknown5 { unk: 0x19 });
        assert(views(steps@) =~= reset_plan());
        assert(views(steps@)[3] is TransactionEnd);
        Session { steps, results: Vec::new(), fetch: false, end_at: 3, failure: None }
    }

    /// The payload that is sent next. While no step has failed it is the
    /// one in the plan at the place that the number of round trips made so
    /// far gives. After a step between the begin and the end of the
    /// transaction has failed it is the end of the transaction.
    pub open spec fn pending(self) -> PayloadView {
        if self.failure() is Some {
            self.plan()[self.end_index()]
        } else {
            self.plan()[self.results().len() as int]
        }
    }

    /// Whether `outcome` is a failure that the operation does not put up
    /// with: no step has failed before, and the pending payload is none of
    /// the best-effort reads.
    pub open spec fn fails_on(self, outcome: SendResult) -> bool {
        self.failure() is None && outcome is Err && !best_effort(self.pending())
    }

    /// Whether the pending payload stands between the begin and the end of
    /// the transaction: the begin went through and the end is still to come.
    pub open spec fn inside_bracket(self) -> bool {
        0 < self.results().len() < self.end_index()
    }

    /// Whether the pending payload is the last of the plan.
    pub open spec fn at_last(self) -> bool {
        self.results().len() + 1 == self.plan().len()
    }

    /// The payload to send next.
    pub fn request(&self) -> (payload: &Payload)
        ensures
            self.results().len() < self.plan().len(),
            0 < self.end_index() < self.plan().len(),
            self.plan()[self.end_index()] is TransactionEnd,
            self.failure() is Some ==> self.inside_bracket(),
            payload@ == self.pending(),
    {
        proof {
            use_type_invariant(self);
        }
        if self.failure.is_some() {
            &self.steps[self.end_at]
        } else {
            &self.steps[self.results.len()]
        }
    }

    /// Take in what the round trip for the pending payload gave.
    ///
    /// A failure of one of the best-effort reads is put up with. Any other
    /// failure decides the result of the operation, and nothing more of the
    /// plan is sent, with one exception: where the begin of the transaction
    /// went through and the end is still to come, the end of the transaction
    /// is sent next, and the operation is over with the error of the failed
    /// step once the outcome for the end is taken in, whatever that outcome
    /// is. A failure of the begin, of the end, or of a payload after the end
    /// ends the operation at once. Without a failure the operation is over
    /// after the last payload of the plan; until then the next payload of
    /// the plan is pending.
    pub fn advance(self, outcome: SendResult) -> (progress: Progress)
        ensures
            self.results().len() < self.plan().len(),
            self.failure() matches Some(first) ==> progress == Progress::Done(Err(first)),
            self.fails_on(outcome) && self.inside_bracket() ==> (progress matches Progress::Continue(
                next,
            ) && next.plan() == self.plan() && next.end_index() == self.end_index()
                && next.results() == self.results() && next.is_fetch() == self.is_fetch()
                && next.failure() == Some(outcome->Err_0) && next.pending() is TransactionEnd),
            self.fails_on(outcome) && !self.inside_bracket() ==> progress == Progress::Done(
                Err(outcome->Err_0),
            ),
            self.failure() is None && !self.fails_on(outcome) && !self.at_last() ==> (
            progress matches Progress::Continue(next) && next.plan() == self.plan()
                && next.end_index() == self.end_index() && next.results() == self.results().push(
                outcome,
            ) && next.is_fetch() == self.is_fetch() && next.failure() is None),
            self.failure() is None && !self.fails_on(outcome) && self.at_last() ==> (
            progress matches Progress::Done(Ok(report)) && match report {
                Some(state) => self.is_fetch() && is_state_of(
                    self.results().push(outcome),
                    state,
                ),
                None => !self.is_fetch(),
            }),
    {
        proof {
            use_type_invariant(&self);
        }
        let Session { steps, results, fetch, end_at, failure } = self;
        if let Some(first) = failure {
            return Progress::Done(Err(first));
        }
        let mut results = results;
        let at = results.len();
        let tolerated = match &steps[at] {
            Payload::GetKeymap { .. } => true,
            Payload::GetKeyIndexes { .. } => true,
            _ => false,
        };
        if !tolerated {
            if let Err(e) = outcome {
                if 0 < at && at < end_at {
                    return Progress::Continue(
                        Session { steps, results, fetch, end_at, failure: Some(e) },
                    );
                }
                return Progress::Done(Err(e));
            }
        }
        results.push(outcome);
        if results.len() < steps.len() {
            return Progress::Continue(Session { steps, results, fetch, end_at, failure: None });
        }
        if fetch {
            let keymap = assemble_keymap(slice_subrange(results.as_slice(), 2, 9));
            let key_indexes = assemble_key_indexes(slice_subrange(results.as_slice(), 9, 12));
            Progress::Done(Ok(Some(DeviceState { keymap, key_indexes })))
        } else {
            Progress::Done(Ok(None))
        }
    }
}

/// The payloads that set the LED animation.
fn animation_steps(
    mode: LightingMode,
    brightness: Brightness,
    speed: Speed,
    color: OwnRGB8,
    rainbow: bool,
) -> (steps: Vec<Payload>)
    ensures
        views(steps@) == animation_plan(mode, brightness, speed, color, rainbow),
{
    let mut steps: Vec<Payload> = Vec::new();
    steps.push(Payload::TransactionStart);
    let unknown: [u8; 5] = [0x09, 0x00, 0x00, 0x55, 0x00];
    assert(unknown@ =~= seq![0x09u8, 0x00u8, 0x00u8, 0x55u8, 0x00u8]);
    steps.push(
        Payload::SetAnimation {
            unknown,
            mode,
            brightness,
            speed,
            pad: 0x0,
            rainbow: if rainbow {
                1
            } else {
                0
            },
            color,
        },
    );
    let unknown: [u8; 5] = [0x01, 0x18, 0x00, 0x55, 0x01];
    assert(unknown@ =~= seq![0x01u8, 0x18u8, 0x00u8, 0x55u8, 0x01u8]);
    steps.push(
        Payload::SetAnimation {
            unknown,
            mode: LightingMode::Wave,
            brightness: Brightness::Off,
            speed: Speed::VeryFast,
            pad: 0x0,
            rainbow: 0x0,
            color: OwnRGB8::new(0, 0, 0),
        },
    );
    steps.push(Payload::TransactionEnd);
    assert(views(steps@) =~= animation_plan(mode, brightness, speed, color, rainbow));
    steps
}

/// The payloads that set the color of every key.
fn custom_colors_steps(key_leds: CustomKeyLeds) -> (steps: Vec<Payload>)
    ensures
        views(steps@) == custom_colors_plan(key_leds@),
{
    let mut steps = animation_steps(
        LightingMode::Custom,
        Brightness::Full,
        Speed::Slow,
        OwnRGB8::new(0, 0, 0),
        false,
    );
    let mut chunks = match key_leds.get_payloads() {
        Ok(chunks) => chunks,
        Err(_) => Vec::new(),
    };
    steps.append(&mut chunks);
    assert(views(steps@) =~= custom_colors_plan(key_leds@));
    steps
}

/// Whether `plan` begins a transaction at `begin`, ends it at `end`, and
/// holds no other begin or end.
pub open spec fn bracketed(plan: Seq<PayloadView>, begin: int, end: int) -> bool {
    &&& 0 <= begin < end < plan.len()
    &&& forall|i: int|
        0 <= i < plan.len() ==> ((#[trigger] plan[i]) is TransactionStart <==> i == begin)
    &&& forall|i: int|
        0 <= i < plan.len() ==> ((#[trigger] plan[i]) is TransactionEnd <==> i == end)
}

/// The plan of every operation holds exactly one begin and one end of a
/// transaction: the begin comes first, and between the two stand the
/// animation, or the first request and the reads of a fetch. The chunks of a
/// color table and the payloads of a reset follow the end. The place of the
/// end is the one that a session of the operation holds as its `end_index`,
/// so that a run in which a step between the two fails still sends the one
/// end, as `Session::advance` states.
pub proof fn lemma_one_bracket(
    mode: LightingMode,
    brightness: Brightness,
    speed: Speed,
    color: OwnRGB8,
    rainbow: bool,
    colors: Seq<OwnRGB8>,
)
    ensures
        bracketed(animation_plan(mode, brightness, speed, color, rainbow), 0, 3),
        bracketed(custom_colors_plan(colors), 0, 3),
        bracketed(reset_plan(), 0, 3),
        bracketed(fetch_plan(), 0, 12),
{
}

} // verus!
