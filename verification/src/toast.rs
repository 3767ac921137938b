//! Toast notifications: short messages stacked at the top right of the
//! screen, newest first, that expire after a few seconds.
use vstd::prelude::*;

use std::time::Duration;
use std::time::Instant;

verus! {

/// Most toasts shown at once.
pub const MAX_TOASTS: usize = 5;

/// Seconds a toast stays on screen.
pub const TOAST_DURATION_SECS: u64 = 3;

/// `std::time::Instant`, carried in a toast as it is; nothing is known of
/// its contents.
#[verifier::external_type_specification]
#[verifier::external_body]
pub struct ExInstant(Instant);

/// `Instant::now`: the current time; nothing is known of it.
#[verifier::external_body]
fn instant_now() -> Instant {
    Instant::now()
}

/// `Instant::elapsed`: time passed since `t`; depends on the clock, so
/// nothing is stated of it.
#[verifier::external_body]
fn instant_elapsed(t: &Instant) -> Duration {
    t.elapsed()
}

/// `Duration::as_secs`: whole seconds of `d`; `Duration` is opaque here, so
/// nothing is stated of the number.
#[verifier::external_body]
fn duration_as_secs(d: &Duration) -> u64 {
    d.as_secs()
}

/// Kind of a toast, which sets its icon, label and colour.
#[derive(Debug, Clone, Copy, PartialEq, Eq, Structural)]
pub enum ToastType {
    Error,
    Success,
    Info,
}

impl ToastType {
    /// The icon's characters.
    pub open spec fn spec_icon(self) -> Seq<char> {
        match self {
            ToastType::Error => seq!['[', '!', ']'],
            ToastType::Success => seq!['[', '+', ']'],
            ToastType::Info => seq!['[', 'i', ']'],
        }
    }

    /// The label's characters.
    pub open spec fn spec_label(self) -> Seq<char> {
        match self {
            ToastType::Error => seq!['E', 'R', 'R', 'O', 'R'],
            ToastType::Success => seq!['S', 'U', 'C', 'C', 'E', 'S', 'S'],
            ToastType::Info => seq!['I', 'N', 'F', 'O'],
        }
    }

    /// Icon shown before the label: "[!]", "[+]" or "[i]".
    pub fn icon(&self) -> (r: &'static str)
        ensures
            r@ == self.spec_icon(),
    {
        match self {
            ToastType::Error => {
                proof {
                    reveal_strlit("[!]");
                }
                "[!]"
            },
            ToastType::Success => {
                proof {
                    reveal_strlit("[+]");
                }
                "[+]"
            },
            ToastType::Info => {
                proof {
                    reveal_strlit("[i]");
                }
                "[i]"
            },
        }
    }

    /// Label shown after the icon: "ERROR", "SUCCESS" or "INFO".
    pub fn label(&self) -> (r: &'static str)
        ensures
            r@ == self.spec_label(),
    {
        match self {
            ToastType::Error => {
                proof {
                    reveal_strlit("ERROR");
                }
                "ERROR"
            },
            ToastType::Success => {
                proof {
                    reveal_strlit("SUCCESS");
                }
                "SUCCESS"
            },
            ToastType::Info => {
                proof {
                    reveal_strlit("INFO");
                }
                "INFO"
            },
        }
    }
}

/// One notification and the moment it was created.
pub struct Toast {
    pub toast_type: ToastType,
    pub message: String,
    pub created_at: Instant,
}

/// Whether a toast that has been shown for `elapsed_secs` whole seconds has
/// expired.
pub fn expired_after(elapsed_secs: u64) -> (b: bool)
    ensures
        b == (elapsed_secs >= TOAST_DURATION_SECS),
{
    elapsed_secs >= TOAST_DURATION_SECS
}

impl Toast {
    /// A toast of the given kind and message, created now.
    pub fn new(toast_type: ToastType, message: String) -> (t: Self)
        ensures
            t.toast_type == toast_type,
            t.message == message,
    {
        Toast { toast_type, message, created_at: instant_now() }
    }

    /// Whether the toast has been shown for at least `TOAST_DURATION_SECS`
    /// seconds; the answer depends on the clock.
    pub fn is_expired(&self) -> bool {
        let elapsed = instant_elapsed(&self.created_at);
        expired_after(duration_as_secs(&elapsed))
    }
}

/// The toasts of `ts` whose flag in `expired` is false, in order.
pub open spec fn kept_toasts(ts: Seq<Toast>, expired: Seq<bool>) -> Seq<Toast>
    decreases ts.len(),
{
    if ts.len() == 0 {
        Seq::empty()
    } else {
        let rest = kept_toasts(ts.drop_last(), expired.take(ts.len() - 1));
        if expired[ts.len() - 1] {
            rest
        } else {
            rest.push(ts.last())
        }
    }
}

/// The toasts on screen, newest first.
pub struct ToastQueue {
    toasts: Vec<Toast>,
}

impl View for ToastQueue {
    type V = Seq<Toast>;

    closed spec fn view(&self) -> Seq<Toast> {
        self.toasts@
    }
}

impl Default for ToastQueue {
    fn default() -> (q: Self)
        ensures
            q@ == Seq::<Toast>::empty(),
    {
        ToastQueue { toasts: Vec::new() }
    }
}

impl ToastQueue {
    #[verifier::type_invariant]
    spec fn bounded(self) -> bool {
        self.toasts@.len() <= MAX_TOASTS
    }

    /// Adds a toast on top; when that makes more than `MAX_TOASTS`, the
    /// oldest one goes.
    pub fn push(&mut self, toast: Toast)
        ensures
            final(self)@ == (if old(self)@.len() < MAX_TOASTS {
                seq![toast] + old(self)@
            } else {
                (seq![toast] + old(self)@).take(MAX_TOASTS as int)
            }),
    {
        proof {
            use_type_invariant(&*self);
        }
        let mut v: Vec<Toast> = Vec::new();
        std::mem::swap(&mut v, &mut self.toasts);
        let ghost old_v = v@;
        v.insert(0, toast);
        assert(v@ =~= seq![toast] + old_v);
        if v.len() > MAX_TOASTS {
            v.pop();
            assert(v@ =~= (seq![toast] + old_v).take(MAX_TOASTS as int));
        }
        self.toasts = v;
    }

    /// Removes the toasts flagged in `expired` (one flag per toast, in the
    /// order of `toasts()`), keeping the others in order.
    pub fn discard_expired(&mut self, expired: &Vec<bool>)
        requires
            expired@.len() == old(self)@.len(),
        ensures
            final(self)@ == kept_toasts(old(self)@, expired@),
            final(self)@.len() <= old(self)@.len(),
    {
        proof {
            use_type_invariant(&*self);
        }
        let mut v: Vec<Toast> = Vec::new();
        std::mem::swap(&mut v, &mut self.toasts);
        let ghost old_v = v@;
        let mut kept: Vec<Toast> = Vec::new();
        let mut i: usize = 0;
        while v.len() > 0
            invariant
                expired@.len() == old_v.len(),
                old_v.len() <= MAX_TOASTS,
                i + v@.len() == old_v.len(),
                v@ == old_v.skip(i as int),
                kept@ == kept_toasts(old_v.take(i as int), expired@.take(i as int)),
                kept@.len() <= i,
            decreases v@.len(),
        {
            let t = v.remove(0);
            proof {
                assert(t == old_v[i as int]);
                assert(old_v.take(i + 1).drop_last() =~= old_v.take(i as int));
                assert(expired@.take(i + 1).take(i as int) =~= expired@.take(i as int));
                assert(v@ =~= old_v.skip(i + 1));
            }
            if !expired[i] {
                kept.push(t);
            }
            i = i + 1;
        }
        assert(old_v.take(i as int) =~= old_v);
        assert(expired@.take(i as int) =~= expired@);
        self.toasts = kept;
    }

    /// Removes the toasts that have expired (called each frame).  Which ones
    /// have expired depends on the clock; the others stay, in order.
    pub fn cleanup(&mut self)
        ensures
            exists|expired: Seq<bool>|
                expired.len() == old(self)@.len() && final(self)@ == kept_toasts(
                    old(self)@,
                    expired,
                ),
            final(self)@.len() <= old(self)@.len(),
    {
        let mut flags: Vec<bool> = Vec::new();
        let n = self.toasts.len();
        for i in 0..n
            invariant
                n == self.toasts@.len(),
                flags@.len() == i,
        {
            flags.push(self.toasts[i].is_expired());
        }
        self.discard_expired(&flags);
    }

    /// The toasts, newest first.
    pub fn toasts(&self) -> (r: &[Toast])
        ensures
            r@ == self@,
            r@.len() <= MAX_TOASTS,
    {
        proof {
            use_type_invariant(self);
        }
        self.toasts.as_slice()
    }

    /// Pushes an error toast with `message`.
    pub fn error(&mut self, message: String)
        ensures
            final(self)@.len() == (if old(self)@.len() < MAX_TOASTS {
                old(self)@.len() + 1
            } else {
                MAX_TOASTS as nat
            }),
            final(self)@[0].toast_type == ToastType::Error,
            final(self)@[0].message == message,
            final(self)@.skip(1) == old(self)@.take(final(self)@.len() - 1),
    {
        self.push(Toast::new(ToastType::Error, message));
    }

    /// Pushes a success toast with `message`.
    pub fn success(&mut self, message: String)
        ensures
            final(self)@.len() == (if old(self)@.len() < MAX_TOASTS {
                old(self)@.len() + 1
            } else {
                MAX_TOASTS as nat
            }),
            final(self)@[0].toast_type == ToastType::Success,
            final(self)@[0].message == message,
            final(self)@.skip(1) == old(self)@.take(final(self)@.len() - 1),
    {
        self.push(Toast::new(ToastType::Success, message));
    }

    /// Pushes an info toast with `message`.
    pub fn info(&mut self, message: String)
        ensures
            final(self)@.len() == (if old(self)@.len() < MAX_TOASTS {
                old(self)@.len() + 1
            } else {
                MAX_TOASTS as nat
            }),
            final(self)@[0].toast_type == ToastType::Info,
            final(self)@[0].message == message,
            final(self)@.skip(1) == old(self)@.take(final(self)@.len() - 1),
    {
        self.push(Toast::new(ToastType::Info, message));
    }
}

/// Width of a toast box, in columns.
pub const TOAST_WIDTH: u16 = 35;
/// Height of a toast box, in rows.
pub const TOAST_HEIGHT: u16 = 3;
/// Rows left free between two toasts.
pub const TOAST_MARGIN: u16 = 1;
/// Columns left free right of the toasts.
pub const RIGHT_MARGIN: u16 = 2;
/// Rows left free above the first toast.
pub const TOP_MARGIN: u16 = 1;

/// The screen rectangle of one toast.
#[derive(Debug, Clone, Copy, PartialEq, Eq, Structural)]
pub struct ToastSlot {
    pub x: u16,
    pub y: u16,
    pub width: u16,
    pub height: u16,
}

/// Row of toast number `i`.
pub open spec fn toast_row(i: int) -> int {
    TOP_MARGIN + i * (TOAST_HEIGHT + TOAST_MARGIN)
}

/// Where `count` toasts go on a frame of `frame_width` by `frame_height`:
/// toast `i` at row `1 + 4 i`, right-aligned two columns from the edge (at
/// column 0 on a narrow frame); the first toast that would cross the bottom
/// edge, and all after it, are not placed.
pub fn toast_slots(frame_width: u16, frame_height: u16, count: usize) -> (slots: Vec<ToastSlot>)
    requires
        count <= 16383 || frame_height < 65532,
    ensures
        slots@.len() <= count,
        slots@.len() == count || toast_row(slots@.len() as int) + TOAST_HEIGHT > frame_height,
        forall|i: int|
            0 <= i < slots@.len() ==> (#[trigger] slots@[i]).y == toast_row(i) && slots@[i].x == (
            if frame_width >= TOAST_WIDTH + RIGHT_MARGIN {
                frame_width - (TOAST_WIDTH + RIGHT_MARGIN)
            } else {
                0
            }) && slots@[i].width == TOAST_WIDTH && slots@[i].height == TOAST_HEIGHT
                && toast_row(i) + TOAST_HEIGHT <= frame_height,
{
    let mut slots: Vec<ToastSlot> = Vec::new();
    let x = frame_width.saturating_sub(TOAST_WIDTH + RIGHT_MARGIN);
    let mut i: usize = 0;
    while i < count
        invariant
            i <= count,
            count <= 16383 || frame_height < 65532,
            slots@.len() == i,
            x == (if frame_width >= TOAST_WIDTH + RIGHT_MARGIN {
                frame_width - (TOAST_WIDTH + RIGHT_MARGIN)
            } else {
                0
            }),
            i > 0 ==> toast_row(i - 1) + TOAST_HEIGHT <= frame_height,
            forall|j: int|
                0 <= j < slots@.len() ==> (#[trigger] slots@[j]).y == toast_row(j) && slots@[j].x
                    == x && slots@[j].width == TOAST_WIDTH && slots@[j].height == TOAST_HEIGHT
                    && toast_row(j) + TOAST_HEIGHT <= frame_height,
        ensures
            slots@.len() == i,
            i == count || toast_row(i as int) + TOAST_HEIGHT > frame_height,
            forall|j: int|
                0 <= j < slots@.len() ==> (#[trigger] slots@[j]).y == toast_row(j) && slots@[j].x
                    == x && slots@[j].width == TOAST_WIDTH && slots@[j].height == TOAST_HEIGHT
                    && toast_row(j) + TOAST_HEIGHT <= frame_height,
        decreases count - i,
    {
        let row: usize = 1 + i * 4;
        if row + 3 > frame_height as usize {
            break;
        }
        slots.push(ToastSlot { x, y: row as u16, width: TOAST_WIDTH, height: TOAST_HEIGHT });
        i = i + 1;
    }
    slots
}

/// Law of toast placement: placed toasts lie inside the frame and do not
/// overlap (each starts below the end of the previous one).
pub proof fn lemma_toast_slots_disjoint(i: int, j: int)
    requires
        0 <= i < j,
    ensures
        toast_row(i) + TOAST_HEIGHT < toast_row(j),
{
}

} // verus!
