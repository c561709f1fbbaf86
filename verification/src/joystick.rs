//! The controller's I2C joystick: decoding its register frame, packing its
//! buttons for the control packet, and the address-probing order.
use vstd::prelude::*;
use crate::protocol::ControlPacket;

verus! {

pub const I2C_SCAN_START_ADDR: u8 = 0x10;
pub const I2C_SCAN_END_ADDR: u8 = 0x77;
pub const JOYSTICK_DEFAULT_ADDRESS: u8 = 0x5A;
pub const JOYSTICK_CANDIDATE_ADDRESSES: [u8; 4] = [0x5A, 0x24, 0x12, 0x48];
/// First register of the runtime frame.
pub const JOYSTICK_RUNTIME_START_REGISTER: u8 = 0x10;
/// Runtime frame length (registers `0x10..=0x35`).
pub const JOYSTICK_RUNTIME_FRAME_LEN: usize = 0x26;

/// Outcome of the start-up I2C bus scan.
#[derive(Copy, Clone, Debug, PartialEq, Eq)]
pub struct I2cScanSummary {
    pub found_count: u8,
    pub first_found: Option<u8>,
}

/// The joystick's five buttons, `true` while pressed.
#[derive(Copy, Clone, Debug, PartialEq, Eq)]
pub struct JoystickButtons {
    pub joy: bool,
    pub c: bool,
    pub a: bool,
    pub b: bool,
    pub d: bool,
}

/// One joystick reading.
#[derive(Copy, Clone, Debug, PartialEq, Eq)]
pub struct JoystickState {
    pub x: u8,
    pub y: u8,
    pub buttons: JoystickButtons,
    /// Raw button registers `0x20..=0x24` (released ≈ 8, pressed = 0).
    pub raw_buttons: [u8; 5],
}

/// The control-packet button byte: bit 0 JOY, bit 1 C, bit 2 A, bit 3 B, bit 4 D.
pub open spec fn button_bits(b: JoystickButtons) -> u8 {
    (if b.joy { 1u8 } else { 0u8 }) | (if b.c { 2u8 } else { 0u8 }) | (if b.a { 4u8 } else { 0u8 })
        | (if b.b { 8u8 } else { 0u8 }) | (if b.d { 16u8 } else { 0u8 })
}

/// Pack the buttons into the control-packet button byte.
pub fn encode_buttons(buttons: &JoystickButtons) -> (packed: u8)
    ensures
        packed == button_bits(*buttons),
{
    let joy: u8 = if buttons.joy { ControlPacket::BUTTON_JOY } else { 0 };
    let c: u8 = if buttons.c { ControlPacket::BUTTON_C } else { 0 };
    let a: u8 = if buttons.a { ControlPacket::BUTTON_A } else { 0 };
    let b: u8 = if buttons.b { ControlPacket::BUTTON_B } else { 0 };
    let d: u8 = if buttons.d { ControlPacket::BUTTON_D } else { 0 };
    let mut packed = 0u8;
    packed = packed | joy;
    packed = packed | c;
    packed = packed | a;
    packed = packed | b;
    packed = packed | d;
    assert(0u8 | joy == joy) by (bit_vector);
    packed
}

/// Each button reads back from its own bit of the packed byte, and no bit
/// above bit 4 is ever set.
pub proof fn lemma_button_bits_decode(b: JoystickButtons)
    ensures
        (button_bits(b) & 1u8 != 0) == b.joy,
        (button_bits(b) & 2u8 != 0) == b.c,
        (button_bits(b) & 4u8 != 0) == b.a,
        (button_bits(b) & 8u8 != 0) == b.b,
        (button_bits(b) & 16u8 != 0) == b.d,
        button_bits(b) < 32,
{
    let j: u8 = if b.joy { 1u8 } else { 0u8 };
    let c: u8 = if b.c { 2u8 } else { 0u8 };
    let a: u8 = if b.a { 4u8 } else { 0u8 };
    let bb: u8 = if b.b { 8u8 } else { 0u8 };
    let d: u8 = if b.d { 16u8 } else { 0u8 };
    assert(
        (j == 0 || j == 1) && (c == 0 || c == 2) && (a == 0 || a == 4) && (bb == 0 || bb == 8) && (d == 0 || d == 16) ==> {
            &&& ((j | c | a | bb | d) & 1u8 != 0) == (j == 1)
            &&& ((j | c | a | bb | d) & 2u8 != 0) == (c == 2)
            &&& ((j | c | a | bb | d) & 4u8 != 0) == (a == 4)
            &&& ((j | c | a | bb | d) & 8u8 != 0) == (bb == 8)
            &&& ((j | c | a | bb | d) & 16u8 != 0) == (d == 16)
            &&& (j | c | a | bb | d) < 32
        }
    ) by (bit_vector);
}

/// The reading sent while the joystick cannot be read: centred, nothing
/// pressed, raw button registers at their released value 8.
pub open spec fn neutral_state() -> JoystickState {
    JoystickState {
        x: 128,
        y: 128,
        buttons: JoystickButtons { joy: false, c: false, a: false, b: false, d: false },
        raw_buttons: [8u8, 8u8, 8u8, 8u8, 8u8],
    }
}

/// A centred joystick with no button pressed.
pub fn neutral_joystick_state() -> (s: JoystickState)
    ensures
        s == neutral_state(),
{
    JoystickState {
        x: 128,
        y: 128,
        buttons: JoystickButtons { joy: false, c: false, a: false, b: false, d: false },
        raw_buttons: [8, 8, 8, 8, 8],
    }
}

/// A raw button register reads 0 while pressed (≈ 8 when released).
fn button_pressed(raw: u8) -> (p: bool)
    ensures
        p == (raw == 0),
{
    raw == 0
}

/// The reading held in a runtime frame (registers `0x10..=0x35`): X at
/// register `0x10`, Y at `0x11`, and the JOY, C, A, B, D button registers at
/// `0x20..=0x24`.
pub open spec fn frame_state(frame: Seq<u8>) -> JoystickState {
    JoystickState {
        x: frame[0x00],
        y: frame[0x01],
        buttons: JoystickButtons {
            joy: frame[0x10] == 0,
            c: frame[0x11] == 0,
            a: frame[0x12] == 0,
            b: frame[0x13] == 0,
            d: frame[0x14] == 0,
        },
        raw_buttons: [frame[0x10], frame[0x11], frame[0x12], frame[0x13], frame[0x14]],
    }
}

/// Decode a runtime register frame into a joystick reading.
pub fn decode_joystick_state(frame: &[u8; JOYSTICK_RUNTIME_FRAME_LEN]) -> (s: JoystickState)
    ensures
        s == frame_state(frame@),
{
    let offset = JOYSTICK_RUNTIME_START_REGISTER as usize;
    let x = frame[0x10 - offset];
    let y = frame[0x11 - offset];
    let raw_buttons = [
        frame[0x20 - offset],
        frame[0x21 - offset],
        frame[0x22 - offset],
        frame[0x23 - offset],
        frame[0x24 - offset],
    ];
    let buttons = JoystickButtons {
        joy: button_pressed(raw_buttons[0]),
        c: button_pressed(raw_buttons[1]),
        a: button_pressed(raw_buttons[2]),
        b: button_pressed(raw_buttons[3]),
        d: button_pressed(raw_buttons[4]),
    };
    let s = JoystickState { x, y, buttons, raw_buttons };
    assert(s.raw_buttons =~= frame_state(frame@).raw_buttons);
    s
}

/// Whether two readings are identical (position, buttons and raw registers).
pub fn same_state(a: &JoystickState, b: &JoystickState) -> (eq: bool)
    ensures
        eq == (*a == *b),
{
    let mut raw_eq = true;
    let mut i: usize = 0;
    while i < 5
        invariant
            0 <= i <= 5,
            raw_eq == (forall|j: int| 0 <= j < i ==> a.raw_buttons[j] == b.raw_buttons[j]),
        decreases 5 - i,
    {
        if a.raw_buttons[i] != b.raw_buttons[i] {
            raw_eq = false;
        }
        i = i + 1;
    }
    if raw_eq {
        assert(a.raw_buttons =~= b.raw_buttons);
    }
    raw_eq && a.x == b.x && a.y == b.y && a.buttons.joy == b.buttons.joy && a.buttons.c == b.buttons.c
        && a.buttons.a == b.buttons.a && a.buttons.b == b.buttons.b && a.buttons.d == b.buttons.d
}

/// Whether `addr` is one of the four known joystick addresses.
pub open spec fn is_candidate(addr: u8) -> bool {
    addr == 0x5A || addr == 0x24 || addr == 0x12 || addr == 0x48
}

/// The known candidate addresses, in probing order.
pub open spec fn candidate_seq() -> Seq<u8> {
    seq![0x5Au8, 0x24u8, 0x12u8, 0x48u8]
}

fn candidates_contain(addr: u8) -> (c: bool)
    ensures
        c == is_candidate(addr),
{
    addr == 0x5A || addr == 0x24 || addr == 0x12 || addr == 0x48
}

/// Addresses tried, in order, when reading a runtime frame: a preferred
/// address that is not already a candidate goes first, then the candidates.
pub fn runtime_read_order(preferred_address: Option<u8>) -> (order: Vec<u8>)
    ensures
        order@ == match preferred_address {
            Some(p) => if is_candidate(p) { candidate_seq() } else { seq![p] + candidate_seq() },
            None => candidate_seq(),
        },
{
    let mut order: Vec<u8> = Vec::new();
    if let Some(addr) = preferred_address {
        if !candidates_contain(addr) {
            order.push(addr);
        }
    }
    order.push(0x5A);
    order.push(0x24);
    order.push(0x12);
    order.push(0x48);
    proof {
        match preferred_address {
            Some(p) => if is_candidate(p) {
                assert(order@ =~= candidate_seq());
            } else {
                assert(order@ =~= seq![p] + candidate_seq());
            },
            None => assert(order@ =~= candidate_seq()),
        }
    }
    order
}

/// One runtime-frame read.
pub type RuntimeFrame = [u8; JOYSTICK_RUNTIME_FRAME_LEN];

/// Settle a runtime-frame read tried at the addresses of `order` in turn,
/// where `outcomes[i]` is what reading at `order[i]` gave: reading stops at
/// the first address that answers, which is returned with its frame;
/// otherwise every address is tried and the first error is returned (`None`
/// only for an empty order). The count says how many addresses were read, so
/// a caller reads lazily: outcomes past the first success are never used.
pub fn settle_frame_read<E: Copy>(order: &Vec<u8>, outcomes: &Vec<Result<RuntimeFrame, E>>)
    -> (r: (usize, Result<(u8, RuntimeFrame), Option<E>>))
    requires
        order@.len() == outcomes@.len(),
    ensures
        match r.1 {
            Ok((addr, frame)) => {
                &&& 1 <= r.0 <= order@.len()
                &&& addr == order@[r.0 - 1]
                &&& outcomes@[r.0 - 1] == Ok::<RuntimeFrame, E>(frame)
                &&& forall|j: int| 0 <= j < r.0 - 1 ==> outcomes@[j] is Err
            },
            Err(first) => {
                &&& r.0 == order@.len()
                &&& forall|j: int| 0 <= j < outcomes@.len() ==> outcomes@[j] is Err
                &&& first == if outcomes@.len() == 0 { None::<E> } else { Some(outcomes@[0]->Err_0) }
            },
        },
{
    let mut first: Option<E> = None;
    let mut i: usize = 0;
    while i < order.len()
        invariant
            order@.len() == outcomes@.len(),
            0 <= i <= order@.len(),
            forall|j: int| 0 <= j < i ==> outcomes@[j] is Err,
            first == if i == 0 { None::<E> } else { Some(outcomes@[0]->Err_0) },
        decreases order@.len() - i,
    {
        match &outcomes[i] {
            Ok(frame) => {
                return (i + 1, Ok((order[i], *frame)));
            },
            Err(e) => {
                if first.is_none() {
                    first = Some(*e);
                }
            },
        }
        i = i + 1;
    }
    (i, Err(first))
}

/// Addresses probed, in order, when resolving the active joystick: the default
/// address, the other candidates, then the first device the bus scan found
/// unless it is already listed.
pub fn probe_order(scan_summary: I2cScanSummary) -> (order: Vec<u8>)
    ensures
        order@ == match scan_summary.first_found {
            Some(f) => if is_candidate(f) { candidate_seq() } else { candidate_seq().push(f) },
            None => candidate_seq(),
        },
        order@.no_duplicates(),
{
    let mut order: Vec<u8> = Vec::new();
    order.push(JOYSTICK_DEFAULT_ADDRESS);
    order.push(0x24);
    order.push(0x12);
    order.push(0x48);
    if let Some(found) = scan_summary.first_found {
        if !candidates_contain(found) {
            order.push(found);
        }
    }
    proof {
        match scan_summary.first_found {
            Some(f) => if is_candidate(f) {
                assert(order@ =~= candidate_seq());
            } else {
                assert(order@ =~= candidate_seq().push(f));
            },
            None => assert(order@ =~= candidate_seq()),
        }
    }
    order
}

/// The scan summary after the device at `address` answered: one more device
/// counted (saturating), and `address` kept as the first one found if none was.
pub fn record_scan_hit(summary: I2cScanSummary, address: u8) -> (s: I2cScanSummary)
    ensures
        s.found_count == if summary.found_count == 255 { 255 } else { summary.found_count + 1 },
        s.first_found == match summary.first_found {
            Some(f) => Some(f),
            None => Some(address),
        },
{
    let first_found = match summary.first_found {
        Some(f) => Some(f),
        None => Some(address),
    };
    I2cScanSummary { found_count: summary.found_count.saturating_add(1), first_found }
}

/// How one address answered the bus scan's empty-write probe.
#[derive(Copy, Clone, Debug, PartialEq, Eq)]
pub enum ScanProbe {
    /// A device acknowledged the address.
    Found,
    /// No device acknowledged the address.
    Absent,
    /// The address phase passed but the empty data phase was not acknowledged.
    DataNack,
    /// Any other bus error.
    Failed,
}

/// Running totals of a bus scan over `I2C_SCAN_START_ADDR..=I2C_SCAN_END_ADDR`.
#[derive(Copy, Clone, Debug, PartialEq, Eq)]
pub struct ScanTally {
    pub summary: I2cScanSummary,
    /// Probes whose data phase was not acknowledged.
    pub data_nacks: usize,
}

/// What the scan reports once every address was probed.
#[derive(Copy, Clone, Debug, PartialEq, Eq)]
pub struct ScanVerdict {
    /// No device answered.
    pub no_devices: bool,
    /// Some probes saw a data-phase NACK (empty writes unsupported, address
    /// mismatch, or wiring/ground trouble).
    pub data_nack_warning: bool,
    /// No device answered but data-phase NACKs were seen: likely a pin-label
    /// mismatch or swapped SDA/SCL.
    pub wiring_hint: bool,
}

impl ScanTally {
    /// Nothing probed yet.
    pub fn new() -> (t: Self)
        ensures
            t.summary == (I2cScanSummary { found_count: 0, first_found: None }),
            t.data_nacks == 0,
    {
        ScanTally { summary: I2cScanSummary { found_count: 0, first_found: None }, data_nacks: 0 }
    }

    /// Count one probe of `address`: a device found is recorded by
    /// [`record_scan_hit`], a data-phase NACK is counted, and other outcomes
    /// change nothing.
    pub fn record(&mut self, address: u8, probe: ScanProbe)
        requires
            old(self).data_nacks < usize::MAX,
        ensures
            final(self).summary == match probe {
                ScanProbe::Found => (I2cScanSummary {
                    found_count: if old(self).summary.found_count == 255 { 255 } else { (old(self).summary.found_count + 1) as u8 },
                    first_found: match old(self).summary.first_found {
                        Some(f) => Some(f),
                        None => Some(address),
                    },
                }),
                _ => old(self).summary,
            },
            final(self).data_nacks == old(self).data_nacks + if probe == ScanProbe::DataNack { 1int } else { 0int },
    {
        match probe {
            ScanProbe::Found => self.summary = record_scan_hit(self.summary, address),
            ScanProbe::DataNack => self.data_nacks = self.data_nacks + 1,
            ScanProbe::Absent => {},
            ScanProbe::Failed => {},
        }
    }

    /// The scan's closing report.
    pub fn verdict(&self) -> (v: ScanVerdict)
        ensures
            v.no_devices == (self.summary.found_count == 0 && self.summary.first_found is None),
            v.data_nack_warning == (self.data_nacks > 0),
            v.wiring_hint == (v.no_devices && v.data_nack_warning),
    {
        let no_devices = self.summary.found_count == 0 && self.summary.first_found.is_none();
        let data_nack_warning = self.data_nacks > 0;
        ScanVerdict { no_devices, data_nack_warning, wiring_hint: no_devices && data_nack_warning }
    }
}

// ── Dynamic register probe ────────────────────────────────────────────────────
//
// A bring-up aid: the probe reads eight windows of eight registers
// (`0x00..=0x3F`) once as a baseline, then repeatedly while the user moves the
// stick, and reports each register the first time it differs from its
// baseline. Window `w` starts at register `8 * w`, so byte `b` of window `w`
// is register `8 * w + b`.

/// Registers per probe window.
pub const JOYSTICK_PROBE_WINDOW_SIZE: usize = 8;
/// Probe windows per capture.
pub const JOYSTICK_PROBE_WINDOW_COUNT: usize = 8;
/// Registers covered by one capture (`0x00..=0x3F`).
pub const JOYSTICK_PROBE_REGISTERS: usize = 64;
/// Most register changes one probe reports.
pub const JOYSTICK_PROBE_MAX_CHANGE_PRINTS: u16 = 64;

/// The registers of one capture, by window.
pub type ProbeWindows = [[u8; JOYSTICK_PROBE_WINDOW_SIZE]; JOYSTICK_PROBE_WINDOW_COUNT];

/// A register whose value differs from its baseline.
#[derive(Copy, Clone, Debug, PartialEq, Eq)]
pub struct RegisterChange {
    pub reg: u8,
    pub old: u8,
    pub new: u8,
}

/// The number of `true` entries.
pub open spec fn count_true(s: Seq<bool>) -> nat
    decreases s.len(),
{
    if s.len() == 0 {
        0
    } else {
        count_true(s.drop_last()) + if s.last() { 1nat } else { 0nat }
    }
}

/// Register `k` read validly in both captures and its value differs.
pub open spec fn register_changed(
    baseline: ProbeWindows,
    baseline_valid: [bool; JOYSTICK_PROBE_WINDOW_COUNT],
    current: ProbeWindows,
    current_valid: [bool; JOYSTICK_PROBE_WINDOW_COUNT],
    k: int,
) -> bool {
    baseline_valid[k / 8] && current_valid[k / 8] && baseline[k / 8][k % 8] != current[k / 8][k % 8]
}

/// The changes reported among the first `n` registers, in register order:
/// each changed register not reported before.
pub open spec fn reported_changes(
    baseline: ProbeWindows,
    baseline_valid: [bool; JOYSTICK_PROBE_WINDOW_COUNT],
    current: ProbeWindows,
    current_valid: [bool; JOYSTICK_PROBE_WINDOW_COUNT],
    seen: Seq<bool>,
    n: nat,
) -> Seq<RegisterChange>
    decreases n,
{
    if n == 0 {
        Seq::empty()
    } else {
        let k = n - 1;
        let prev = reported_changes(baseline, baseline_valid, current, current_valid, seen, (n - 1) as nat);
        if register_changed(baseline, baseline_valid, current, current_valid, k) && !seen[k] {
            prev.push(RegisterChange { reg: k as u8, old: baseline[k / 8][k % 8], new: current[k / 8][k % 8] })
        } else {
            prev
        }
    }
}

proof fn lemma_count_true_bound(s: Seq<bool>, k: int)
    requires
        0 <= k < s.len(),
        !s[k],
    ensures
        count_true(s) < s.len(),
    decreases s.len(),
{
    if k < s.len() - 1 {
        lemma_count_true_bound(s.drop_last(), k);
    } else {
        lemma_count_true_le(s.drop_last());
    }
}

proof fn lemma_count_true_le(s: Seq<bool>)
    ensures
        count_true(s) <= s.len(),
    decreases s.len(),
{
    if s.len() > 0 {
        lemma_count_true_le(s.drop_last());
    }
}

proof fn lemma_count_true_none(s: Seq<bool>)
    requires
        forall|j: int| 0 <= j < s.len() ==> !s[j],
    ensures
        count_true(s) == 0,
    decreases s.len(),
{
    if s.len() > 0 {
        lemma_count_true_none(s.drop_last());
    }
}

proof fn lemma_count_true_set(s: Seq<bool>, k: int)
    requires
        0 <= k < s.len(),
        !s[k],
    ensures
        count_true(s.update(k, true)) == count_true(s) + 1,
    decreases s.len(),
{
    let t = s.update(k, true);
    if k < s.len() - 1 {
        assert(t.drop_last() =~= s.drop_last().update(k, true));
        lemma_count_true_set(s.drop_last(), k);
    } else {
        assert(t.drop_last() =~= s.drop_last());
    }
}

/// Which registers the probe has already reported. Each register is
/// reported at most once per probe.
pub struct ChangeTracker {
    seen: [bool; JOYSTICK_PROBE_REGISTERS],
    printed: u16,
}

impl ChangeTracker {
    #[verifier::type_invariant]
    spec fn wf(self) -> bool {
        self.printed == count_true(self.seen@)
    }

    /// Whether each register has been reported.
    pub closed spec fn seen(self) -> Seq<bool> {
        self.seen@
    }

    /// Nothing reported yet.
    pub fn new() -> (t: Self)
        ensures
            t.seen() == Seq::new(64, |k: int| false),
    {
        let seen = [false; JOYSTICK_PROBE_REGISTERS];
        proof {
            assert(seen@ =~= Seq::new(64, |k: int| false));
            lemma_count_true_none(seen@);
        }
        ChangeTracker { seen, printed: 0 }
    }

    /// How many changes have been reported.
    pub fn printed(&self) -> (n: u16)
        ensures
            n == count_true(self.seen()),
    {
        proof {
            use_type_invariant(self);
        }
        self.printed
    }

    /// Compare a capture with the baseline and return the changes not
    /// reported before, in register order; registers of a window that failed
    /// to read in either capture are skipped. The returned registers count as
    /// reported from now on.
    pub fn record(
        &mut self,
        baseline: &ProbeWindows,
        baseline_valid: &[bool; JOYSTICK_PROBE_WINDOW_COUNT],
        current: &ProbeWindows,
        current_valid: &[bool; JOYSTICK_PROBE_WINDOW_COUNT],
    ) -> (changes: Vec<RegisterChange>)
        ensures
            changes@ == reported_changes(*baseline, *baseline_valid, *current, *current_valid, old(self).seen(), 64),
            final(self).seen() == Seq::new(
                64,
                |k: int| old(self).seen()[k] || register_changed(*baseline, *baseline_valid, *current, *current_valid, k),
            ),
    {
        proof {
            use_type_invariant(&*self);
        }
        let ghost old_seen = self.seen@;
        let mut seen = self.seen;
        let mut printed = self.printed;
        let mut changes: Vec<RegisterChange> = Vec::new();
        let mut k: usize = 0;
        while k < JOYSTICK_PROBE_REGISTERS
            invariant
                0 <= k <= 64,
                old_seen.len() == 64,
                seen@.len() == 64,
                printed == count_true(seen@),
                forall|j: int| 0 <= j < 64 ==> #[trigger] seen@[j] == if j < k {
                    old_seen[j] || register_changed(*baseline, *baseline_valid, *current, *current_valid, j)
                } else {
                    old_seen[j]
                },
                changes@ == reported_changes(*baseline, *baseline_valid, *current, *current_valid, old_seen, k as nat),
            decreases 64 - k,
        {
            let w = k / JOYSTICK_PROBE_WINDOW_SIZE;
            let b = k % JOYSTICK_PROBE_WINDOW_SIZE;
            let ghost before = seen@;
            if baseline_valid[w] && current_valid[w] {
                let old = baseline[w][b];
                let new = current[w][b];
                if old != new && !seen[k] {
                    proof {
                        lemma_count_true_bound(seen@, k as int);
                    }
                    if printed < JOYSTICK_PROBE_MAX_CHANGE_PRINTS {
                        proof {
                            lemma_count_true_set(seen@, k as int);
                        }
                        seen[k] = true;
                        printed = printed + 1;
                        changes.push(RegisterChange { reg: k as u8, old, new });
                    }
                }
            }
            assert(forall|j: int| 0 <= j < 64 && j != k ==> seen@[j] == before[j]);
            k = k + 1;
        }
        assert(seen@ =~= Seq::new(
            64,
            |j: int| old_seen[j] || register_changed(*baseline, *baseline_valid, *current, *current_valid, j),
        ));
        *self = ChangeTracker { seen, printed };
        changes
    }
}

} // verus!
