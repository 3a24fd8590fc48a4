//! The per-session state machine: it decides what the automation surface does next
//! from what the last command reported.

use vstd::prelude::*;
use crate::booking::{
    select_date,
    acceptable_dates,
    parsed_dates,
    latest_date,
    is_latest_at,
    split_name,
    first_name_of,
    last_name_of,
    classify_page,
    verdict_of,
    PageVerdict,
};
use crate::date::{CalendarDate, iso_date};
use crate::extract::{OfficeListing, CalendarView, calendar_dates, calendar_days};
use crate::models::{OfficeAvailability, OfficeView, texts_view};
use crate::parse::i32_text;
use crate::registry::{FalsePositiveRegistry, RemovalPolicy};
use crate::session::{NCDMVScraper, scan, scan_listings, selection_ok, records_view, listing_outcome, lemma_scan_stops};
use crate::text::{contains_text, contains_seq};

verus! {

/// How many batches the stream from an engine to its consumer holds before the engine
/// waits: one per office of the territory.
pub const STREAM_CAPACITY: usize = 117;

/// A selection control of the portal's service menu.
pub struct ServiceControl {
    pub text: String,
    pub clickable: bool,
}

/// Whether a control is a clickable one whose text holds the selector.
pub open spec fn control_fits(c: ServiceControl, selector: Seq<char>) -> bool {
    c.clickable && contains_seq(c.text@, selector)
}

/// Whether position `i` holds the first control that fits the selector.
pub open spec fn first_fitting(cs: Seq<ServiceControl>, selector: Seq<char>, i: int) -> bool {
    &&& 0 <= i < cs.len()
    &&& control_fits(cs[i], selector)
    &&& forall|j: int| 0 <= j < i ==> !#[trigger] control_fits(cs[j], selector)
}

/// Finds the first clickable control whose text holds the selector.
pub fn find_service_control(cs: &Vec<ServiceControl>, selector: &str) -> (r: Option<usize>)
    ensures
        r matches Some(i) ==> first_fitting(cs@, selector@, i as int),
        r is None ==> forall|j: int| 0 <= j < cs@.len() ==> !#[trigger] control_fits(cs@[j], selector@),
{
    let mut k: usize = 0;
    while k < cs.len()
        invariant
            k <= cs@.len(),
            forall|j: int| 0 <= j < k ==> !#[trigger] control_fits(cs@[j], selector@),
        decreases cs.len() - k,
    {
        if contains_text(cs[k].text.as_str(), selector) && cs[k].clickable {
            return Some(k);
        }
        k = k + 1;
    }
    None
}

/// The steps of one office's inspection; each waits for one report.
#[derive(Debug, Clone, Copy, PartialEq, Eq, Structural)]
pub enum Stage {
    /// The office was opened; its calendar is awaited.
    Calendar,
    /// A date was chosen and the flow advanced; the page text is awaited.
    Page,
    /// The requester's name and phone are being entered.
    Identity,
    /// A proxy email address is awaited.
    ProxyEmail,
    /// The proxy email address is being entered.
    Email,
    /// A CAPTCHA token is awaited.
    Captcha,
    /// The remaining steps are being submitted.
    Submitted,
}

/// Where a session stands.
#[derive(Debug, Clone, Copy, PartialEq, Eq, Structural)]
pub enum Phase {
    /// The automation surface is being set up and the portal opened.
    Starting,
    /// The service menu is being scanned for the session's selector.
    SelectingService,
    /// The service was clicked.
    ServiceChosen,
    /// The office listings are awaited.
    Listing,
    /// An office is being inspected.
    Inspecting(Stage),
    /// The listing page is being brought back after an inspection.
    Returning,
    /// A batch is being emitted.
    Emitting,
    /// The results page is being reloaded.
    Reloading,
    /// The receiver of the batches is gone; nothing more is done.
    Closed,
    /// The automation surface failed; nothing more is done.
    Failed,
}

/// What the automation surface reports back.
pub enum Event {
    /// The last command completed.
    Ready,
    /// The controls of the service menu.
    ServiceControls(Vec<ServiceControl>),
    /// The office listings of the results page.
    Listing(Vec<OfficeListing>),
    /// The calendar of the opened office.
    Calendar(CalendarView),
    /// The text of the page shown after a date was chosen.
    PageText(String),
    /// The proxy email address issued for the requester.
    ProxyEmail(String),
    /// The CAPTCHA token the solver returned.
    CaptchaToken(String),
    /// A step of the current office (or of reading the page) failed.
    OfficeFault,
    /// The batch could not be emitted: its receiver is gone.
    ReceiverDropped,
    /// The automation surface itself failed.
    TransportFault,
}

/// What the automation surface is to do next.
#[derive(Debug)]
pub enum Action {
    /// Set up the surface, apply the geolocation, open the portal and its service menu.
    Start,
    /// Read the controls of the service menu.
    ScanServiceControls,
    /// Click the control at this position.
    ClickServiceControl(usize),
    /// Wait for the next tick and read the office listings.
    ReadListing,
    /// Open the office at this position of the listings and read its calendar.
    OpenOffice(usize),
    /// Click this day, advance, and read the page text.
    ChooseDate(CalendarDate),
    /// Enter the requester's name and phone.
    FillIdentity { first_name: String, last_name: String, phone_number: String },
    /// Ask for a proxy email address.
    RequestProxyEmail { real_email: String, expire_date: String },
    /// Enter this email address in both email fields.
    FillEmail(String),
    /// Ask the solver for a CAPTCHA token.
    SolveCaptcha,
    /// Inject this token and advance through the remaining steps.
    Submit(String),
    /// Bring back the listing page.
    ReturnToListing,
    /// Emit this batch on the session's stream.
    Emit(Vec<OfficeAvailability>),
    /// Reload the results page.
    Reload,
    /// Stop the session.
    Stop,
}

/// The registry once an office is registered.
pub open spec fn flagged(reg: Seq<Seq<char>>, name: Seq<char>) -> Seq<Seq<char>> {
    if reg.contains(name) {
        reg
    } else {
        reg.push(name)
    }
}

/// One monitoring session's decisions.
pub struct SessionEngine {
    pub phase: Phase,
    pub max_distance: u16,
    pub name: String,
    pub phone_number: String,
    pub email: String,
    pub selector: String,
    /// The caller's acceptable dates as written.
    pub dates: Vec<String>,
    /// The caller's acceptable dates that are dates.
    pub acceptable: Vec<CalendarDate>,
    pub policy: RemovalPolicy,
    /// The listings of the current pass.
    pub listings: Vec<OfficeListing>,
    /// The position of the office under inspection.
    pub cursor: usize,
    /// The records of the current pass so far.
    pub batch: Vec<OfficeAvailability>,
    /// The record of the office under inspection.
    pub current: Option<OfficeAvailability>,
}

impl SessionEngine {
    /// The engine's invariant: every record within distance and with its selected date
    /// the earliest acceptable one.
    pub open spec fn wf(&self) -> bool {
        &&& self.acceptable@ == parsed_dates(texts_view(self.dates@))
        &&& self.cursor <= self.listings@.len()
        &&& forall|i: int| 0 <= i < self.batch@.len() ==> (#[trigger] self.batch@[i]).distance <= self.max_distance
            && selection_ok(self.batch@[i]@, self.acceptable@)
        &&& (self.phase is Inspecting <==> self.current is Some)
        &&& self.phase is Inspecting ==> self.cursor < self.listings@.len()
        &&& self.phase is Returning ==> self.cursor < self.listings@.len()
        &&& self.current matches Some(c) ==> c.distance <= self.max_distance && selection_ok(c@, self.acceptable@)
    }

    /// Whether two engines hold the same session parameters.
    pub open spec fn same_session(&self, other: &SessionEngine) -> bool {
        &&& self.max_distance == other.max_distance
        &&& self.name@ == other.name@
        &&& self.phone_number@ == other.phone_number@
        &&& self.email@ == other.email@
        &&& self.selector@ == other.selector@
        &&& self.dates@ == other.dates@
        &&& self.acceptable@ == other.acceptable@
        &&& self.policy == other.policy
    }

    /// The record of the office under inspection: the current one, or the last of the batch
    /// once the inspection ended.
    pub open spec fn office_record(&self) -> OfficeView {
        if self.current is Some {
            self.current->0@
        } else {
            self.batch@.last()@
        }
    }

    /// A session for a validated request, watching the service with this selector for
    /// these dates.
    pub fn new(scraper: &NCDMVScraper, selector: &str, dates: Vec<String>, policy: RemovalPolicy) -> (r: (Self, Action))
        ensures
            r.0.wf(),
            r.0.phase == Phase::Starting,
            r.1 is Start,
            r.0.max_distance == scraper@.max_distance,
            r.0.name@ == scraper@.name,
            r.0.phone_number@ == scraper@.phone_number,
            r.0.email@ == scraper@.email,
            r.0.selector@ == selector@,
            r.0.dates@ == dates@,
            r.0.policy == policy,
            r.0.acceptable@ == parsed_dates(texts_view(dates@)),
            r.0.listings@.len() == 0,
            r.0.cursor == 0,
            r.0.batch@.len() == 0,
            r.0.current is None,
    {
        let acceptable = acceptable_dates(&dates);
        let engine = SessionEngine {
            phase: Phase::Starting,
            max_distance: scraper.max_distance(),
            name: scraper.name().clone(),
            phone_number: scraper.phone_number().clone(),
            email: scraper.email().clone(),
            selector: String::from_str(selector),
            dates,
            acceptable,
            policy,
            listings: Vec::new(),
            cursor: 0,
            batch: Vec::new(),
            current: None,
        };
        (engine, Action::Start)
    }

    /// Ends the inspection of the current office: its record joins the batch.
    fn finish_office(&mut self) -> (a: Action)
        requires
            old(self).wf(),
            old(self).phase is Inspecting,
        ensures
            final(self).wf(),
            final(self).same_session(old(self)),
            final(self).listings@ == old(self).listings@,
            final(self).cursor == old(self).cursor,
            final(self).phase is Returning,
            final(self).current is None,
            final(self).batch@ == old(self).batch@.push(old(self).current->0),
            a is ReturnToListing,
    {
        let rec = self.current.take().unwrap();
        self.batch.push(rec);
        self.phase = Phase::Returning;
        Action::ReturnToListing
    }

    /// Goes on with the pass from listing `from`: to the next office to inspect, or to
    /// emitting the batch.
    fn run_pass(&mut self, registry: &mut FalsePositiveRegistry, from: usize) -> (a: Action)
        requires
            old(self).wf(),
            old(self).current is None,
            from <= old(self).listings@.len(),
        ensures
            final(self).wf(),
            final(self).same_session(old(self)),
            final(self).listings@ == old(self).listings@,
            a matches Action::Emit(b) ==> forall|i: int| 0 <= i < b@.len() ==> (#[trigger] b@[i]).distance
                <= old(self).max_distance && selection_ok(b@[i]@, old(self).acceptable@),
            ({
                let s = scan(old(self).listings@, from as int, old(self).max_distance, old(registry)@, old(self).policy);
                &&& final(registry)@ == s.1
                &&& s.0 < old(self).listings@.len() ==> {
                    &&& a == Action::OpenOffice(s.0 as usize)
                    &&& final(self).phase == Phase::Inspecting(Stage::Calendar)
                    &&& final(self).cursor == s.0
                    &&& final(self).current matches Some(c) && listing_outcome(old(self).listings@[s.0], old(self).max_distance) == Some(c@)
                    &&& records_view(final(self).batch@) == records_view(old(self).batch@) + s.2
                }
                &&& s.0 >= old(self).listings@.len() ==> {
                    &&& a matches Action::Emit(b) && records_view(b@) == records_view(old(self).batch@) + s.2
                    &&& final(self).phase is Emitting
                    &&& final(self).batch@.len() == 0
                }
            }),
    {
        let ghost before = records_view(self.batch@);
        let ghost s = scan(self.listings@, from as int, self.max_distance, registry@, self.policy);
        proof {
            lemma_scan_stops(self.listings@, from as int, self.max_distance, registry@, self.policy);
            crate::session::law_scan_within_distance(
                self.listings@,
                from as int,
                self.max_distance,
                registry@,
                self.policy,
                self.acceptable@,
            );
        }
        let ghost old_batch = self.batch@;
        let mut batch: Vec<OfficeAvailability> = Vec::new();
        std::mem::swap(&mut batch, &mut self.batch);
        let (stop, found) = scan_listings(&self.listings, from, self.max_distance, registry, self.policy, &mut batch);
        let ghost joined = records_view(old_batch) + s.2;
        assert(records_view(batch@) == joined);
        assert(batch@.len() == old_batch.len() + s.2.len());
        assert forall|i: int| 0 <= i < batch@.len() implies (#[trigger] batch@[i]).distance <= self.max_distance
            && selection_ok(batch@[i]@, self.acceptable@) by {
            assert(records_view(batch@)[i] == batch@[i]@);
            if i < old_batch.len() {
                assert(records_view(old_batch)[i] == old_batch[i]@);
                assert(joined[i] == records_view(old_batch)[i]);
            } else {
                assert(joined[i] == s.2[i - old_batch.len()]);
            }
        }
        match found {
            Some(rec) => {
                self.batch = batch;
                self.cursor = stop;
                self.current = Some(rec);
                self.phase = Phase::Inspecting(Stage::Calendar);
                Action::OpenOffice(stop)
            },
            None => {
                self.phase = Phase::Emitting;
                Action::Emit(batch)
            },
        }
    }
    /// Takes in the opened office's calendar and decides on a date.
    fn on_calendar(&mut self, registry: &mut FalsePositiveRegistry, cv: CalendarView) -> (a: Action)
        requires
            old(self).wf(),
            old(self).phase == Phase::Inspecting(Stage::Calendar),
        ensures
            final(self).wf(),
            final(self).same_session(old(self)),
            final(self).listings@ == old(self).listings@,
            final(self).cursor == old(self).cursor,
            calendar_outcome(old(self), final(self), old(registry)@, final(registry)@, cv, a),
    {
        let mut rec = self.current.take().unwrap();
        let dates = calendar_dates(&cv);
        let choice = select_date(&dates, &self.acceptable);
        rec.available_dates = dates;
        rec.selected_date = choice;
        match choice {
            Some(d) => {
                self.current = Some(rec);
                self.phase = Phase::Inspecting(Stage::Page);
                Action::ChooseDate(d)
            },
            None => {
                registry.flag(rec.office_name.as_str());
                self.current = Some(rec);
                let ghost prior = self.batch@;
                let a = self.finish_office();
                assert(self.batch@.subrange(0, prior.len() as int) =~= prior);
                a
            },
        }
    }

    /// Takes in the page shown after the date was chosen.
    fn on_page(&mut self, registry: &mut FalsePositiveRegistry, body: String) -> (a: Action)
        requires
            old(self).wf(),
            old(self).phase == Phase::Inspecting(Stage::Page),
        ensures
            final(self).wf(),
            final(self).same_session(old(self)),
            final(self).listings@ == old(self).listings@,
            final(self).cursor == old(self).cursor,
            verdict_of(body@) == PageVerdict::Proceed ==> {
                &&& final(registry)@ == old(registry)@
                &&& final(self).phase == Phase::Inspecting(Stage::Identity)
                &&& final(self).current == old(self).current
                &&& final(self).batch@ == old(self).batch@
                &&& a matches Action::FillIdentity { first_name, last_name, phone_number }
                    && first_name@ == first_name_of(old(self).name@)
                    && last_name@ == last_name_of(old(self).name@)
                    && phone_number@ == old(self).phone_number@
            },
            verdict_of(body@) != PageVerdict::Proceed ==> {
                &&& final(registry)@ == flagged(old(registry)@, old(self).current->0@.office_name)
                &&& final(self).phase is Returning
                &&& final(self).batch@ == old(self).batch@.push(old(self).current->0)
                &&& a is ReturnToListing
            },
    {
        match classify_page(body.as_str()) {
            PageVerdict::Proceed => {
                let (first_name, last_name) = split_name(self.name.as_str());
                self.phase = Phase::Inspecting(Stage::Identity);
                Action::FillIdentity { first_name, last_name, phone_number: self.phone_number.clone() }
            },
            _ => {
                match &self.current {
                    Some(rec) => registry.flag(rec.office_name.as_str()),
                    None => {},
                }
                self.finish_office()
            },
        }
    }

    /// Once the identity fields are filled: asks for a proxy email expiring on the latest
    /// acceptable date, or gives the office up when no acceptable date is a date.
    fn on_identity_filled(&mut self) -> (a: Action)
        requires
            old(self).wf(),
            old(self).phase == Phase::Inspecting(Stage::Identity),
        ensures
            final(self).wf(),
            final(self).same_session(old(self)),
            final(self).listings@ == old(self).listings@,
            final(self).cursor == old(self).cursor,
            identity_outcome(old(self), final(self), a),
    {
        match latest_date(&self.dates) {
            Some(expire_date) => {
                self.phase = Phase::Inspecting(Stage::ProxyEmail);
                Action::RequestProxyEmail { real_email: self.email.clone(), expire_date }
            },
            None => self.finish_office(),
        }
    }

    /// Decides what to do on a report from the automation surface.
    #[verifier::rlimit(50)]
    pub fn step(&mut self, registry: &mut FalsePositiveRegistry, event: Event) -> (a: Action)
        requires
            old(self).wf(),
        ensures
            final(self).wf(),
            final(self).same_session(old(self)),
            a matches Action::Emit(b) ==> forall|i: int| 0 <= i < b@.len() ==> (#[trigger] b@[i]).distance
                <= old(self).max_distance && selection_ok(b@[i]@, old(self).acceptable@),
            step_outcome(old(self), final(self), old(registry)@, final(registry)@, event, a),
    {
        let terminal = match self.phase {
            Phase::Closed => true,
            Phase::Failed => true,
            _ => false,
        };
        if terminal {
            return Action::Stop;
        }
        if let Event::TransportFault = event {
            return self.fail();
        }
        match self.phase {
            Phase::Starting => match event {
                Event::Ready => {
                    self.phase = Phase::SelectingService;
                    Action::ScanServiceControls
                },
                _ => self.fail(),
            },
            Phase::SelectingService => match event {
                Event::ServiceControls(cs) => match find_service_control(&cs, self.selector.as_str()) {
                    Some(i) => {
                        self.phase = Phase::ServiceChosen;
                        Action::ClickServiceControl(i)
                    },
                    None => Action::ScanServiceControls,
                },
                _ => self.fail(),
            },
            Phase::ServiceChosen => match event {
                Event::Ready => {
                    self.phase = Phase::Listing;
                    Action::ReadListing
                },
                _ => self.fail(),
            },
            Phase::Listing => match event {
                Event::Listing(ls) => {
                    self.listings = ls;
                    self.batch = Vec::new();
                    self.cursor = 0;
                    self.run_pass(registry, 0)
                },
                Event::OfficeFault => {
                    self.phase = Phase::Reloading;
                    Action::Reload
                },
                _ => self.fail(),
            },
            Phase::Inspecting(stage) => match (stage, event) {
                (_, Event::OfficeFault) => self.finish_office(),
                (Stage::Calendar, Event::Calendar(cv)) => self.on_calendar(registry, cv),
                (Stage::Page, Event::PageText(body)) => self.on_page(registry, body),
                (Stage::Identity, Event::Ready) => self.on_identity_filled(),
                (Stage::ProxyEmail, Event::ProxyEmail(email)) => {
                    self.phase = Phase::Inspecting(Stage::Email);
                    Action::FillEmail(email)
                },
                (Stage::Email, Event::Ready) => {
                    self.phase = Phase::Inspecting(Stage::Captcha);
                    Action::SolveCaptcha
                },
                (Stage::Captcha, Event::CaptchaToken(token)) => {
                    self.phase = Phase::Inspecting(Stage::Submitted);
                    Action::Submit(token)
                },
                (Stage::Submitted, Event::Ready) => self.finish_office(),
                _ => self.fail(),
            },
            Phase::Returning => match event {
                Event::Ready => {
                    let n = self.listings.len();
                    let from = if self.cursor < n {
                        self.cursor + 1
                    } else {
                        n
                    };
                    self.run_pass(registry, from)
                },
                _ => self.fail(),
            },
            Phase::Emitting => match event {
                Event::Ready => {
                    self.phase = Phase::Reloading;
                    Action::Reload
                },
                Event::ReceiverDropped => {
                    self.phase = Phase::Closed;
                    Action::Stop
                },
                _ => self.fail(),
            },
            Phase::Reloading => match event {
                Event::Ready => {
                    self.phase = Phase::Listing;
                    Action::ReadListing
                },
                _ => self.fail(),
            },
            _ => Action::Stop,
        }
    }

    /// Ends the session on a fault of the automation surface.
    fn fail(&mut self) -> (a: Action)
        requires
            old(self).wf(),
        ensures
            final(self).wf(),
            final(self).same_session(old(self)),
            final(self).phase is Failed,
            final(self).current is None,
            a is Stop,
    {
        self.current = None;
        self.phase = Phase::Failed;
        Action::Stop
    }
}

/// Whether two records are of the same office observation, whatever their dates.
pub open spec fn same_office(a: OfficeView, b: OfficeView) -> bool {
    &&& a.is_reservable == b.is_reservable
    &&& a.office_name == b.office_name
    &&& a.street_address == b.street_address
    &&& a.distance == b.distance
    &&& a.zip_code == b.zip_code
}

/// What taking in a calendar does: the office's record gets the calendar's dates and the
/// earliest acceptable one; with none, the office is registered and given up.
pub open spec fn calendar_outcome(
    old_e: &SessionEngine,
    new_e: &SessionEngine,
    old_reg: Seq<Seq<char>>,
    new_reg: Seq<Seq<char>>,
    cv: CalendarView,
    a: Action,
) -> bool {
    let before = old_e.current->0@;
    let after = new_e.office_record();
    let days = texts_view(cv.day_texts@);
    &&& same_office(after, before)
    &&& (exists|y: i32| after.available_dates == #[trigger] calendar_days(cv.month_text@, y, days))
    &&& (i32_text(cv.year_text@) matches Some(y) ==> after.available_dates == calendar_days(cv.month_text@, y, days))
    &&& selection_ok(after, old_e.acceptable@)
    &&& after.selected_date is None ==> {
        &&& new_reg == flagged(old_reg, before.office_name)
        &&& new_e.phase is Returning
        &&& new_e.batch@.len() == old_e.batch@.len() + 1
        &&& new_e.batch@.subrange(0, old_e.batch@.len() as int) == old_e.batch@
        &&& a is ReturnToListing
    }
    &&& after.selected_date matches Some(d) ==> {
        &&& new_reg == old_reg
        &&& new_e.phase == Phase::Inspecting(Stage::Page)
        &&& new_e.batch@ == old_e.batch@
        &&& a == Action::ChooseDate(d)
    }
}

/// What the identity step's completion does.
pub open spec fn identity_outcome(old_e: &SessionEngine, new_e: &SessionEngine, a: Action) -> bool {
    let texts = texts_view(old_e.dates@);
    &&& (forall|j: int| 0 <= j < texts.len() ==> #[trigger] iso_date(texts[j]) is None) ==> {
        &&& new_e.phase is Returning
        &&& new_e.batch@ == old_e.batch@.push(old_e.current->0)
        &&& a is ReturnToListing
    }
    &&& !(forall|j: int| 0 <= j < texts.len() ==> #[trigger] iso_date(texts[j]) is None) ==> {
        &&& new_e.phase == Phase::Inspecting(Stage::ProxyEmail)
        &&& new_e.current == old_e.current
        &&& new_e.batch@ == old_e.batch@
        &&& a matches Action::RequestProxyEmail { real_email, expire_date }
            && real_email@ == old_e.email@
            && exists|i: int| is_latest_at(texts, i) && expire_date@ == #[trigger] texts[i]
    }
}

/// What a pass does from listing `from` on: it goes to the next office to inspect, or
/// emits the batch.
pub open spec fn pass_outcome(
    old_e: &SessionEngine,
    new_e: &SessionEngine,
    listings: Seq<OfficeListing>,
    from: int,
    prior: Seq<OfficeView>,
    old_reg: Seq<Seq<char>>,
    new_reg: Seq<Seq<char>>,
    a: Action,
) -> bool {
    let s = scan(listings, from, old_e.max_distance, old_reg, old_e.policy);
    &&& new_e.listings@ == listings
    &&& new_reg == s.1
    &&& s.0 < listings.len() ==> {
        &&& a == Action::OpenOffice(s.0 as usize)
        &&& new_e.phase == Phase::Inspecting(Stage::Calendar)
        &&& new_e.cursor == s.0
        &&& new_e.current matches Some(c) && listing_outcome(listings[s.0], old_e.max_distance) == Some(c@)
        &&& records_view(new_e.batch@) == prior + s.2
    }
    &&& s.0 >= listings.len() ==> {
        &&& a matches Action::Emit(b) && records_view(b@) == prior + s.2
        &&& new_e.phase is Emitting
        &&& new_e.batch@.len() == 0
    }
}

/// Whether a report fits the phase in which it arrives.
pub open spec fn expected(p: Phase, e: Event) -> bool {
    match p {
        Phase::Starting => e is Ready,
        Phase::SelectingService => e is ServiceControls,
        Phase::ServiceChosen => e is Ready,
        Phase::Listing => e is Listing || e is OfficeFault,
        Phase::Inspecting(stage) => e is OfficeFault || match stage {
            Stage::Calendar => e is Calendar,
            Stage::Page => e is PageText,
            Stage::Identity => e is Ready,
            Stage::ProxyEmail => e is ProxyEmail,
            Stage::Email => e is Ready,
            Stage::Captcha => e is CaptchaToken,
            Stage::Submitted => e is Ready,
        },
        Phase::Returning => e is Ready,
        Phase::Emitting => e is Ready || e is ReceiverDropped,
        Phase::Reloading => e is Ready,
        Phase::Closed => true,
        Phase::Failed => true,
    }
}

/// What one step does, for each phase and report.
pub open spec fn step_outcome(
    old_e: &SessionEngine,
    new_e: &SessionEngine,
    old_reg: Seq<Seq<char>>,
    new_reg: Seq<Seq<char>>,
    e: Event,
    a: Action,
) -> bool {
    let terminal = old_e.phase is Closed || old_e.phase is Failed;
    &&& terminal ==> a is Stop && new_e.phase == old_e.phase && new_reg == old_reg
    &&& !terminal && (e is TransportFault || !expected(old_e.phase, e)) ==> {
        &&& new_e.phase is Failed
        &&& a is Stop
        &&& new_reg == old_reg
    }
    &&& old_e.phase is Starting && e is Ready ==> new_e.phase is SelectingService && a is ScanServiceControls
    &&& old_e.phase is SelectingService ==> (e matches Event::ServiceControls(cs) ==> {
        &&& new_reg == old_reg
        &&& (forall|j: int| 0 <= j < cs@.len() ==> !#[trigger] control_fits(cs@[j], old_e.selector@)) ==> new_e.phase
            is SelectingService && a is ScanServiceControls
        &&& a matches Action::ClickServiceControl(i) ==> first_fitting(cs@, old_e.selector@, i as int)
            && new_e.phase is ServiceChosen
        &&& a is ScanServiceControls || a is ClickServiceControl
    })
    &&& old_e.phase is ServiceChosen && e is Ready ==> new_e.phase is Listing && a is ReadListing
    &&& old_e.phase is Listing ==> (e matches Event::Listing(ls) ==> pass_outcome(old_e, new_e, ls@, 0, Seq::empty(), old_reg, new_reg, a))
    &&& old_e.phase is Listing && e is OfficeFault ==> new_e.phase is Reloading && a is Reload && new_reg == old_reg
    &&& old_e.phase is Inspecting && e is OfficeFault ==> {
        &&& new_e.phase is Returning
        &&& new_e.batch@ == old_e.batch@.push(old_e.current->0)
        &&& new_reg == old_reg
        &&& a is ReturnToListing
    }
    &&& old_e.phase == Phase::Inspecting(Stage::Calendar) ==> (e matches Event::Calendar(cv) ==> calendar_outcome(old_e, new_e, old_reg, new_reg, cv, a))
    &&& old_e.phase == Phase::Inspecting(Stage::Page) ==> (e matches Event::PageText(body) ==> {
        &&& verdict_of(body@) == PageVerdict::Proceed ==> {
            &&& new_reg == old_reg
            &&& new_e.phase == Phase::Inspecting(Stage::Identity)
            &&& a matches Action::FillIdentity { first_name, last_name, phone_number }
                && first_name@ == first_name_of(old_e.name@)
                && last_name@ == last_name_of(old_e.name@)
                && phone_number@ == old_e.phone_number@
        }
        &&& verdict_of(body@) != PageVerdict::Proceed ==> {
            &&& new_reg == flagged(old_reg, old_e.current->0@.office_name)
            &&& new_e.phase is Returning
            &&& new_e.batch@ == old_e.batch@.push(old_e.current->0)
            &&& a is ReturnToListing
        }
    })
    &&& old_e.phase == Phase::Inspecting(Stage::Identity) && e is Ready ==> identity_outcome(old_e, new_e, a) && new_reg == old_reg
    &&& old_e.phase == Phase::Inspecting(Stage::ProxyEmail) ==> (e matches Event::ProxyEmail(m) ==> {
        &&& new_e.phase == Phase::Inspecting(Stage::Email)
        &&& a matches Action::FillEmail(f) && f@ == m@
        &&& new_reg == old_reg
    })
    &&& old_e.phase == Phase::Inspecting(Stage::Email) && e is Ready ==> new_e.phase == Phase::Inspecting(Stage::Captcha)
        && a is SolveCaptcha && new_reg == old_reg
    &&& old_e.phase == Phase::Inspecting(Stage::Captcha) ==> (e matches Event::CaptchaToken(t) ==> {
        &&& new_e.phase == Phase::Inspecting(Stage::Submitted)
        &&& a matches Action::Submit(u) && u@ == t@
        &&& new_reg == old_reg
    })
    &&& old_e.phase == Phase::Inspecting(Stage::Submitted) && e is Ready ==> {
        &&& new_e.phase is Returning
        &&& new_e.batch@ == old_e.batch@.push(old_e.current->0)
        &&& new_reg == old_reg
        &&& a is ReturnToListing
    }
    &&& old_e.phase is Returning && e is Ready ==> pass_outcome(
        old_e,
        new_e,
        old_e.listings@,
        old_e.cursor + 1,
        records_view(old_e.batch@),
        old_reg,
        new_reg,
        a,
    )
    &&& old_e.phase is Emitting && e is Ready ==> new_e.phase is Reloading && a is Reload && new_reg == old_reg
    &&& old_e.phase is Emitting && e is ReceiverDropped ==> new_e.phase is Closed && a is Stop && new_reg == old_reg
    &&& old_e.phase is Reloading && e is Ready ==> new_e.phase is Listing && a is ReadListing && new_reg == old_reg
}

} // verus!
