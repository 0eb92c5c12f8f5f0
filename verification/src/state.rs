//! The scan desk: the selected zone, the text in the scan field, the counts
//! on display, and the notice under the heading. Every event of the desk is
//! a function from the state before it to the state after it.

use crate::clock::Timestamp;
use crate::counters::{sum_of, Counters, CountersView, Readings};
use crate::text::{decimal, push_decimal, trim, trimmed};
use crate::tracking::{lemma_normalized_trimmed, normalize_tracking, normalized};
use crate::zone::Zone;
use vstd::prelude::*;
use vstd::string::StringExecFns;

verus! {

/// Shown when a scan is submitted before a zone is selected.
pub const NO_ZONE: &'static str = "Bitte zuerst eine Zone wählen";

/// Shown when the same text is submitted again too soon.
pub const DUPLICATE: &'static str = "Doppelscan blockiert";

/// What the heading shows for the zone while none is selected.
pub const NO_ZONE_MARK: &'static str = "—";

/// For how many seconds a notice stays on display.
pub const NOTICE_SECONDS: u64 = 4;

/// The colour of a notice or a figure.
#[derive(Clone, Copy, Debug, PartialEq, Eq, Structural)]
pub enum Tone {
    Red,
    Green,
    Yellow,
    LightBlue,
}

/// A notice under the heading. It is shown until its time has come.
#[derive(Clone, Debug, PartialEq, Eq)]
pub struct Notice {
    pub text: String,
    pub tone: Tone,
    /// From this time on the notice is no longer shown.
    pub expires: Timestamp,
}

/// `Notice` as plain mathematics.
pub struct NoticeView {
    pub text: Seq<char>,
    pub tone: Tone,
    pub expires: Timestamp,
}

impl View for Notice {
    type V = NoticeView;

    open spec fn view(&self) -> NoticeView {
        NoticeView { text: self.text@, tone: self.tone, expires: self.expires }
    }
}

/// The notice with `text` in `tone` that is raised at `now`.
pub open spec fn raised(text: Seq<char>, tone: Tone, now: Timestamp) -> Option<NoticeView> {
    Some(NoticeView { text, tone, expires: now.plus_seconds(NOTICE_SECONDS) })
}

/// The state of the scan desk.
#[derive(Debug)]
pub struct AppState {
    /// The zone that scans are checked in to.
    pub current_zone: Option<Zone>,
    /// The text in the scan field.
    pub input: String,
    pub counters: Counters,
    /// The text of the last scan that was stored, trimmed, and its time.
    pub last_scan: Option<(String, Timestamp)>,
    /// The notice that was raised last, if any.
    pub message: Option<Notice>,
    /// For how many milliseconds a repeated scan is held back.
    pub debounce_ms: u64,
}

/// `AppState` as plain mathematics.
pub struct AppStateView {
    pub current_zone: Option<Zone>,
    pub input: Seq<char>,
    pub counters: CountersView,
    pub last_scan: Option<(Seq<char>, Timestamp)>,
    pub message: Option<NoticeView>,
    pub debounce_ms: u64,
}

/// What the desk decides when the scan field is submitted.
#[derive(Debug)]
pub enum Submission {
    /// No zone is selected. The desk says so; nothing is to be stored.
    NoZone,
    /// The field holds no code. Nothing happens.
    Empty,
    /// The same text was stored a moment ago. The desk says so and clears
    /// the field; nothing is to be stored.
    Duplicate,
    /// The text is to be checked in to the zone; the desk waits to hear
    /// how that went.
    CheckIn { tracking: String, zone: Zone, at: Timestamp },
}

/// `Submission` as plain mathematics.
pub enum SubmissionView {
    NoZone,
    Empty,
    Duplicate,
    CheckIn { tracking: Seq<char>, zone: Zone, at: Timestamp },
}

impl View for Submission {
    type V = SubmissionView;

    open spec fn view(&self) -> SubmissionView {
        match *self {
            Submission::NoZone => SubmissionView::NoZone,
            Submission::Empty => SubmissionView::Empty,
            Submission::Duplicate => SubmissionView::Duplicate,
            Submission::CheckIn { tracking, zone, at } => SubmissionView::CheckIn {
                tracking: tracking@,
                zone,
                at,
            },
        }
    }
}

impl View for AppState {
    type V = AppStateView;

    open spec fn view(&self) -> AppStateView {
        AppStateView {
            current_zone: self.current_zone,
            input: self.input@,
            counters: self.counters@,
            last_scan: match self.last_scan {
                Some((text, at)) => Some((text@, at)),
                None => None,
            },
            message: match self.message {
                Some(notice) => Some(notice@),
                None => None,
            },
            debounce_ms: self.debounce_ms,
        }
    }
}

impl AppStateView {
    /// Whether `text` repeats the last stored scan within the debounce
    /// interval.
    pub open spec fn repeats(self, text: Seq<char>, now: Timestamp) -> bool {
        match self.last_scan {
            Some((last, at)) => last == text && now.millis_since(at) < self.debounce_ms,
            None => false,
        }
    }

    /// The desk and its decision after the scan field is submitted at
    /// `now`.
    pub open spec fn submit(self, now: Timestamp) -> (AppStateView, SubmissionView) {
        let text = trimmed(self.input);
        match self.current_zone {
            None => (
                AppStateView { message: raised(NO_ZONE@, Tone::Red, now), ..self },
                SubmissionView::NoZone,
            ),
            Some(zone) => if normalized(text).len() == 0 {
                (self, SubmissionView::Empty)
            } else if self.repeats(text, now) {
                (
                    AppStateView {
                        message: raised(DUPLICATE@, Tone::Yellow, now),
                        input: Seq::empty(),
                        ..self
                    },
                    SubmissionView::Duplicate,
                )
            } else {
                (self, SubmissionView::CheckIn { tracking: text, zone, at: now })
            },
        }
    }

    /// The desk after the check-in of `tracking` to `zone`, submitted at
    /// `at`, was stored and the zones were counted again.
    pub open spec fn stored(
        self,
        tracking: Seq<char>,
        zone: Zone,
        readings: Seq<Option<u64>>,
        at: Timestamp,
    ) -> AppStateView {
        AppStateView {
            last_scan: Some((tracking, at)),
            input: Seq::empty(),
            counters: self.counters.refreshed(readings),
            message: raised(tracking + " → "@ + zone.token(), Tone::Green, at),
            ..self
        }
    }

    /// The desk after a check-in submitted at `at` failed for `reason`.
    pub open spec fn failed(self, reason: Seq<char>, at: Timestamp) -> AppStateView {
        AppStateView { message: raised("Fehler: "@ + reason, Tone::Red, at), ..self }
    }

    /// The desk after `zone` was selected at `now` and the zones were
    /// counted again.
    pub open spec fn select_zone(
        self,
        zone: Zone,
        readings: Seq<Option<u64>>,
        now: Timestamp,
    ) -> AppStateView {
        AppStateView {
            current_zone: Some(zone),
            counters: self.counters.refreshed(readings),
            message: raised("Zone "@ + zone.token() + " gewählt"@, Tone::LightBlue, now),
            ..self
        }
    }

    /// The text on the button of `zone`: its token, and in brackets the
    /// count on display for it, if there is one.
    pub open spec fn zone_label(self, zone: Zone) -> Seq<char> {
        match self.counters.count(zone) {
            Some(n) => zone.token() + " ("@ + decimal(n as nat) + ")"@,
            None => zone.token(),
        }
    }

    /// The heading for the selected zone.
    pub open spec fn zone_heading(self) -> Seq<char> {
        "Zone: "@ + match self.current_zone {
            Some(zone) => zone.token(),
            None => NO_ZONE_MARK@,
        }
    }

    /// The heading for the total.
    pub open spec fn total_heading(self) -> Seq<char> {
        "Eingebucht: "@ + decimal(self.counters.total_in as nat)
    }

    /// The notice to show at `now`: the last one raised, until it
    /// expires.
    pub open spec fn visible_message(self, now: Timestamp) -> Option<(Seq<char>, Tone)> {
        match self.message {
            Some(notice) => if now.is_before(notice.expires) {
                Some((notice.text, notice.tone))
            } else {
                None
            },
            None => None,
        }
    }

    /// The desk at `now` without a notice that has expired.
    pub open spec fn expire(self, now: Timestamp) -> AppStateView {
        AppStateView {
            message: if self.visible_message(now) is Some {
                self.message
            } else {
                None
            },
            ..self
        }
    }
}

impl AppStateView {
    /// Submitting decides; it stores nothing. The zone, the counts, the
    /// last scan and the interval are as before, and unless the scan is
    /// held back as a repeat the field is too.
    pub proof fn lemma_submit_keeps(self, now: Timestamp)
        ensures
            self.submit(now).0.current_zone == self.current_zone,
            self.submit(now).0.counters == self.counters,
            self.submit(now).0.last_scan == self.last_scan,
            self.submit(now).0.debounce_ms == self.debounce_ms,
            self.submit(now).1 != SubmissionView::Duplicate ==> self.submit(now).0.input
                == self.input,
    {
    }

    /// A field without letters and digits is never checked in: with a zone
    /// selected the desk stays as it is.
    pub proof fn lemma_no_code_no_check_in(self, now: Timestamp)
        requires
            normalized(self.input).len() == 0,
        ensures
            !(self.submit(now).1 is CheckIn),
            self.current_zone is Some ==> self.submit(now) == (self, SubmissionView::Empty),
    {
        lemma_normalized_trimmed(self.input);
    }

    /// What is handed on for a check-in is the trimmed text of the field,
    /// it holds a code, and it goes to the selected zone.
    pub proof fn lemma_check_in_holds_a_code(self, now: Timestamp)
        ensures
            self.submit(now).1 matches SubmissionView::CheckIn { tracking, zone, at } ==> {
                &&& tracking == trimmed(self.input)
                &&& normalized(tracking).len() > 0
                &&& self.current_zone == Some(zone)
                &&& at == now
                &&& !self.repeats(tracking, now)
                &&& self.submit(now).0 == self
            },
    {
    }

    /// After a scan was stored, the same text submitted again before the
    /// interval has passed is held back, whatever white space surrounds
    /// it.
    pub proof fn lemma_repeat_is_held_back(
        self,
        tracking: Seq<char>,
        zone: Zone,
        readings: Seq<Option<u64>>,
        at: Timestamp,
        typed: Seq<char>,
        now: Timestamp,
    )
        requires
            self.current_zone is Some,
            trimmed(typed) == tracking,
            normalized(tracking).len() > 0,
            now.millis_since(at) < self.debounce_ms,
        ensures
            (AppStateView { input: typed, ..self.stored(tracking, zone, readings, at) }).submit(
                now,
            ).1 == SubmissionView::Duplicate,
    {
    }

    /// A notice raised at `at` is shown for as long as less than
    /// `NOTICE_SECONDS` whole seconds have passed, and at any time before
    /// `at`. (A time so late that the seconds after it cannot be counted
    /// is left out.)
    pub proof fn lemma_notice_lasts(self, reason: Seq<char>, at: Timestamp, now: Timestamp)
        requires
            at.secs + NOTICE_SECONDS <= i64::MAX,
        ensures
            self.failed(reason, at).visible_message(now) is Some <==> now.seconds_since(at)
                < NOTICE_SECONDS,
            self.failed(reason, at).visible_message(now) is Some ==> self.failed(
                reason,
                at,
            ).visible_message(now) == Some(("Fehler: "@ + reason, Tone::Red)),
    {
    }

    /// Taking down expired notices changes nothing that is shown.
    pub proof fn lemma_expire_shows_the_same(self, now: Timestamp)
        ensures
            self.expire(now).visible_message(now) == self.visible_message(now),
            self.expire(now).message is Some <==> self.visible_message(now) is Some,
    {
    }

    /// After a scan was stored the field is empty, so that submitting
    /// again without typing does nothing.
    pub proof fn lemma_stored_then_empty(
        self,
        tracking: Seq<char>,
        zone: Zone,
        readings: Seq<Option<u64>>,
        at: Timestamp,
        now: Timestamp,
    )
        requires
            self.current_zone is Some,
        ensures
            self.stored(tracking, zone, readings, at).submit(now) == (
                self.stored(tracking, zone, readings, at),
                SubmissionView::Empty,
            ),
    {
        let after = self.stored(tracking, zone, readings, at);
        assert(after.input.len() == 0);
        assert(trimmed(after.input) =~= Seq::<char>::empty());
        lemma_normalized_trimmed(after.input);
        crate::tracking::lemma_normalized_chars(after.input);
    }
}

impl Notice {
    /// The notice with `text` in `tone` that is raised at `now`.
    pub fn raise(text: String, tone: Tone, now: &Timestamp) -> (notice: Notice)
        ensures
            Some(notice@) == raised(text@, tone, *now),
    {
        Notice { text, tone, expires: now.later(NOTICE_SECONDS) }
    }
}

impl AppState {
    /// A desk with no zone selected, an empty scan field, nothing counted
    /// and no notice.
    pub fn new(debounce_ms: u64) -> (state: AppState)
        ensures
            state@.current_zone is None,
            state@.input.len() == 0,
            state@.counters.total_in == 0,
            forall|z: Zone| state@.counters.count(z) is None,
            state@.last_scan is None,
            state@.message is None,
            state@.debounce_ms == debounce_ms,
    {
        AppState {
            current_zone: None,
            input: String::new(),
            counters: Counters::default(),
            last_scan: None,
            message: None,
            debounce_ms,
        }
    }

    /// Whether `text` repeats the last stored scan within the debounce
    /// interval.
    fn repeats(&self, text: &String, now: &Timestamp) -> (r: bool)
        ensures
            r == self@.repeats(text@, *now),
    {
        match &self.last_scan {
            Some((last, at)) => *last == *text && now.elapsed_millis(at) < self.debounce_ms as i128,
            None => false,
        }
    }

    /// The scan field is submitted at `now`.
    pub fn submit(&mut self, now: Timestamp) -> (decision: Submission)
        ensures
            (final(self)@, decision@) == old(self)@.submit(now),
    {
        let zone = match self.current_zone {
            Some(zone) => zone,
            None => {
                self.message = Some(Notice::raise(String::from_str(NO_ZONE), Tone::Red, &now));
                return Submission::NoZone;
            },
        };
        let text = trim(self.input.as_str());
        let code = normalize_tracking(text.as_str());
        if code.as_str().unicode_len() == 0 {
            return Submission::Empty;
        }
        if self.repeats(&text, &now) {
            self.message = Some(Notice::raise(String::from_str(DUPLICATE), Tone::Yellow, &now));
            self.input = String::new();
            return Submission::Duplicate;
        }
        Submission::CheckIn { tracking: text, zone, at: now }
    }

    /// The check-in that `submit` asked for at `at` was stored, and the
    /// zones were counted again.
    pub fn stored(&mut self, tracking: &str, zone: Zone, readings: &Readings, at: Timestamp)
        requires
            sum_of(readings@) <= u64::MAX,
        ensures
            final(self)@ == old(self)@.stored(tracking@, zone, readings@, at),
    {
        let mut text = String::from_str(tracking);
        text.append(" → ");
        text.append(zone.to_string().as_str());
        self.last_scan = Some((String::from_str(tracking), at));
        self.input = String::new();
        self.counters.refresh(readings);
        self.message = Some(Notice::raise(text, Tone::Green, &at));
    }

    /// The check-in that `submit` asked for at `at` failed.
    pub fn failed(&mut self, reason: &str, at: Timestamp)
        ensures
            final(self)@ == old(self)@.failed(reason@, at),
    {
        let text = String::from_str("Fehler: ").concat(reason);
        self.message = Some(Notice::raise(text, Tone::Red, &at));
    }

    /// The button of `zone` was pressed at `now`, and the zones were
    /// counted again.
    pub fn select_zone(&mut self, zone: Zone, readings: &Readings, now: Timestamp)
        requires
            sum_of(readings@) <= u64::MAX,
        ensures
            final(self)@ == old(self)@.select_zone(zone, readings@, now),
    {
        let mut text = String::from_str("Zone ");
        text.append(zone.to_string().as_str());
        text.append(" gewählt");
        self.current_zone = Some(zone);
        self.counters.refresh(readings);
        self.message = Some(Notice::raise(text, Tone::LightBlue, &now));
    }

    /// The zones were counted again.
    pub fn refresh(&mut self, readings: &Readings)
        requires
            sum_of(readings@) <= u64::MAX,
        ensures
            final(self)@ == (AppStateView {
                counters: old(self)@.counters.refreshed(readings@),
                ..old(self)@
            }),
    {
        self.counters.refresh(readings);
    }

    /// Whether `zone` is the selected one.
    pub fn is_selected(&self, zone: Zone) -> (yes: bool)
        ensures
            yes == (self@.current_zone == Some(zone)),
    {
        match self.current_zone {
            Some(current) => current == zone,
            None => false,
        }
    }

    /// The text on the button of `zone`.
    pub fn zone_label(&self, zone: Zone) -> (label: String)
        ensures
            label@ == self@.zone_label(zone),
    {
        let mut label = zone.to_string();
        if let Some(n) = self.counters.get(zone) {
            label.append(" (");
            push_decimal(&mut label, n);
            label.append(")");
        }
        label
    }

    /// The heading for the selected zone.
    pub fn zone_heading(&self) -> (heading: String)
        ensures
            heading@ == self@.zone_heading(),
    {
        let mut heading = String::from_str("Zone: ");
        match self.current_zone {
            Some(zone) => heading.append(zone.to_string().as_str()),
            None => heading.append(NO_ZONE_MARK),
        }
        heading
    }

    /// The heading for the total.
    pub fn total_heading(&self) -> (heading: String)
        ensures
            heading@ == self@.total_heading(),
    {
        let mut heading = String::from_str("Eingebucht: ");
        push_decimal(&mut heading, self.counters.total_in);
        heading
    }

    /// The colour of the total: red while nothing is checked in, green
    /// otherwise.
    pub fn total_tone(&self) -> (tone: Tone)
        ensures
            tone == if self@.counters.total_in == 0 {
                Tone::Red
            } else {
                Tone::Green
            },
    {
        if self.counters.total_in == 0 {
            Tone::Red
        } else {
            Tone::Green
        }
    }

    /// The notice to show at `now`, if there is one.
    pub fn visible_message(&self, now: Timestamp) -> (notice: Option<(String, Tone)>)
        ensures
            match notice {
                Some((text, tone)) => self@.visible_message(now) == Some((text@, tone)),
                None => self@.visible_message(now) is None,
            },
    {
        match &self.message {
            Some(notice) => {
                if now.before(&notice.expires) {
                    Some((notice.text.clone(), notice.tone))
                } else {
                    None
                }
            },
            None => None,
        }
    }

    /// Takes down the notice if it has expired at `now`.
    pub fn expire(&mut self, now: Timestamp)
        ensures
            final(self)@ == old(self)@.expire(now),
    {
        let expired = match &self.message {
            Some(notice) => !now.before(&notice.expires),
            None => false,
        };
        if expired {
            self.message = None;
        }
    }
}

} // verus!
