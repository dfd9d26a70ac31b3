//! The search for a usable connector, encoder and CRTC, and the choice of the
//! display mode.
//!
//! The search asks the driver about one object at a time, so it is a state
//! machine: [`SetupSearch::start`] gives the first request, and each answer
//! handed to [`SetupSearch::step`] gives the next one, until the search picks a
//! CRTC, fails on a request the driver refused, or runs out of connectors.

use vstd::prelude::*;

verus! {

/// What the search needs to know of a connector.
#[derive(Clone, Copy, Debug, PartialEq, Eq, Structural)]
pub struct ConnectorSummary {
    /// A display is attached.
    pub connected: bool,
    /// The connector is currently driven by an encoder.
    pub has_current_encoder: bool,
    /// Number of encoders the connector can be driven by.
    pub encoder_count: usize,
}

/// What the search needs to know of an encoder.
#[derive(Clone, Copy, Debug, PartialEq, Eq, Structural)]
pub struct EncoderSummary {
    /// The encoder is currently attached to a CRTC.
    pub has_crtc: bool,
    /// Bit `i` is set when the encoder can be driven by CRTC `i` of the
    /// device's CRTC list.
    pub possible_crtcs: u32,
}

/// Which encoder of a connector to use.
#[derive(Clone, Copy, Debug, PartialEq, Eq, Structural)]
pub enum EncoderChoice {
    /// The encoder currently driving the connector.
    Current,
    /// The first encoder in the connector's list.
    FirstListed,
}

/// Which CRTC to use with an encoder.
#[derive(Clone, Copy, Debug, PartialEq, Eq, Structural)]
pub enum CrtcChoice {
    /// The CRTC the encoder is currently attached to.
    Current,
    /// CRTC `i` of the device's CRTC list.
    Listed(usize),
}

/// The encoder to use for a connector: none if no display is attached,
/// otherwise the current encoder, or else the first listed one.
pub open spec fn encoder_choice(c: ConnectorSummary) -> Option<EncoderChoice> {
    if !c.connected {
        None
    } else if c.has_current_encoder {
        Some(EncoderChoice::Current)
    } else if c.encoder_count > 0 {
        Some(EncoderChoice::FirstListed)
    } else {
        None
    }
}

/// Picks the encoder for a connector, as [`encoder_choice`] says.
pub fn choose_encoder(c: &ConnectorSummary) -> (choice: Option<EncoderChoice>)
    ensures
        choice == encoder_choice(*c),
        choice is Some ==> c.connected,
        choice == Some(EncoderChoice::FirstListed) ==> !c.has_current_encoder && c.encoder_count > 0,
        c.connected && c.has_current_encoder ==> choice == Some(EncoderChoice::Current),
        c.connected && !c.has_current_encoder && c.encoder_count > 0 ==> choice == Some(
            EncoderChoice::FirstListed,
        ),
        choice is None <==> (!c.connected || (!c.has_current_encoder && c.encoder_count == 0)),
{
    if !c.connected {
        None
    } else if c.has_current_encoder {
        Some(EncoderChoice::Current)
    } else if c.encoder_count > 0 {
        Some(EncoderChoice::FirstListed)
    } else {
        None
    }
}

/// CRTC `i` may drive an encoder whose possible-CRTC mask is `mask`.
pub open spec fn crtc_possible(mask: u32, i: int) -> bool {
    0 <= i < 32 && mask & (1u32 << (i as u32)) != 0u32
}

/// The first of the CRTCs `i .. count` that `mask` allows.
pub open spec fn first_possible_crtc(mask: u32, i: int, count: int) -> Option<usize>
    decreases count - i,
{
    if i < 0 || i >= count {
        None
    } else if crtc_possible(mask, i) {
        Some(i as usize)
    } else {
        first_possible_crtc(mask, i + 1, count)
    }
}

/// The CRTC to use with an encoder, among the device's `crtc_count` CRTCs: the
/// one it is attached to, or else the first one its mask allows.
pub open spec fn crtc_choice(e: EncoderSummary, crtc_count: usize) -> Option<CrtcChoice> {
    if e.has_crtc {
        Some(CrtcChoice::Current)
    } else {
        match first_possible_crtc(e.possible_crtcs, 0, crtc_count as int) {
            Some(i) => Some(CrtcChoice::Listed(i)),
            None => None,
        }
    }
}

/// The scan of the mask never tests a CRTC past the 32 bits of the mask: the
/// encoder has a CRTC, or there are at most 32 CRTCs, or one of the first 32 is
/// allowed.
pub open spec fn crtc_scan_in_range(e: EncoderSummary, crtc_count: usize) -> bool {
    e.has_crtc || crtc_count <= 32 || exists|i: int| crtc_possible(e.possible_crtcs, i)
}

/// Whether [`choose_crtc`] can scan this encoder's mask (see
/// [`crtc_scan_in_range`]).
pub fn crtc_scan_stays_in_range(e: &EncoderSummary, crtc_count: usize) -> (ok: bool)
    ensures
        ok == crtc_scan_in_range(*e, crtc_count),
{
    if e.has_crtc || crtc_count <= 32 {
        return true;
    }
    let mut i: u32 = 0;
    while i < 32
        invariant
            i <= 32,
            forall|j: int| 0 <= j < i ==> !crtc_possible(e.possible_crtcs, j),
        decreases 32 - i,
    {
        if (e.possible_crtcs & (1u32 << i)) != 0 {
            assert(crtc_possible(e.possible_crtcs, i as int));
            return true;
        }
        i = i + 1;
    }
    false
}

/// What the CRTC choice must satisfy, said of the encoder directly: the
/// encoder's current CRTC is chosen exactly when it has one; otherwise the
/// choice is the lowest-numbered listed CRTC whose bit is set in the mask, and
/// nothing when no listed CRTC's bit is set.
pub open spec fn crtc_laws(e: EncoderSummary, crtc_count: usize, choice: Option<CrtcChoice>) -> bool {
    &&& (choice == Some(CrtcChoice::Current) <==> e.has_crtc)
    &&& choice matches Some(CrtcChoice::Listed(i)) ==> {
        &&& i < crtc_count
        &&& i < 32
        &&& e.possible_crtcs & (1u32 << (i as u32)) != 0u32
        &&& forall|j: u32| j < i ==> #[trigger] (e.possible_crtcs & (1u32 << j)) == 0u32
    }
    &&& (choice is None <==> (!e.has_crtc && forall|j: u32|
        j < 32 && j < crtc_count ==> #[trigger] (e.possible_crtcs & (1u32 << j)) == 0u32))
}

/// The CRTC rule obeys [`crtc_laws`] for every encoder and CRTC count.
pub proof fn lemma_crtc_laws(e: EncoderSummary, crtc_count: usize)
    ensures
        crtc_laws(e, crtc_count, crtc_choice(e, crtc_count)),
{
    let mask = e.possible_crtcs;
    lemma_first_possible(mask, 0, crtc_count as int);
    match first_possible_crtc(mask, 0, crtc_count as int) {
        Some(f) => {
            assert forall|j: u32| j < f implies #[trigger] (mask & (1u32 << j)) == 0u32 by {
                assert(!crtc_possible(mask, j as int));
            }
        },
        None => {
            assert forall|j: u32| j < 32 && j < crtc_count implies #[trigger] (mask & (1u32 << j))
                == 0u32 by {
                assert(!crtc_possible(mask, j as int));
            }
        },
    }
}

/// The scan from CRTC `i` finds the lowest possible CRTC at or after `i`.
proof fn lemma_first_possible(mask: u32, i: int, count: int)
    requires
        0 <= i,
    ensures
        first_possible_crtc(mask, i, count) matches Some(f) ==> i <= f < count && crtc_possible(
            mask,
            f as int,
        ) && forall|j: int| i <= j < f ==> !crtc_possible(mask, j),
        first_possible_crtc(mask, i, count) is None ==> forall|j: int|
            i <= j < count ==> !crtc_possible(mask, j),
    decreases count - i,
{
    if i < count && !crtc_possible(mask, i) {
        lemma_first_possible(mask, i + 1, count);
    }
}

/// Picks the CRTC for an encoder, as [`crtc_choice`] says.
pub fn choose_crtc(e: &EncoderSummary, crtc_count: usize) -> (choice: Option<CrtcChoice>)
    requires
        crtc_scan_in_range(*e, crtc_count),
    ensures
        choice == crtc_choice(*e, crtc_count),
        crtc_laws(*e, crtc_count, choice),
        choice matches Some(CrtcChoice::Listed(i)) ==> !e.has_crtc && i < crtc_count
            && crtc_possible(e.possible_crtcs, i as int) && forall|j: int|
            0 <= j < i ==> !crtc_possible(e.possible_crtcs, j),
        choice is None ==> !e.has_crtc && forall|j: int|
            0 <= j < crtc_count ==> !crtc_possible(e.possible_crtcs, j),
{
    proof {
        lemma_crtc_laws(*e, crtc_count);
    }
    if e.has_crtc {
        return Some(CrtcChoice::Current);
    }
    let bitmask: u32 = e.possible_crtcs;
    let mut i: usize = 0;
    while i < crtc_count
        invariant
            i <= crtc_count,
            !e.has_crtc,
            bitmask == e.possible_crtcs,
            crtc_scan_in_range(*e, crtc_count),
            forall|j: int| 0 <= j < i ==> !crtc_possible(bitmask, j),
            first_possible_crtc(bitmask, 0, crtc_count as int) == first_possible_crtc(
                bitmask,
                i as int,
                crtc_count as int,
            ),
        decreases crtc_count - i,
    {
        if i >= 32 {
            proof {
                let j = choose|j: int| crtc_possible(e.possible_crtcs, j);
                assert(!crtc_possible(bitmask, j));
            }
        }
        if (bitmask & (1u32 << (i as u32))) != 0 {
            proof {
                lemma_crtc_laws(*e, crtc_count);
            }
            return Some(CrtcChoice::Listed(i));
        }
        i = i + 1;
    }
    None
}

/// Where the search stands.
#[derive(Clone, Copy, Debug, PartialEq, Eq, Structural)]
pub enum SetupPhase {
    /// Waiting for the summary of connector `current`.
    AwaitingConnector,
    /// Waiting for the summary of the encoder chosen for connector `current`.
    AwaitingEncoder,
    /// The search is over.
    Finished,
}

/// The state of the search over the device's connectors.
#[derive(Clone, Copy, Debug, PartialEq, Eq, Structural)]
pub struct SetupSearch {
    pub connector_count: usize,
    pub crtc_count: usize,
    /// The connector being examined.
    pub current: usize,
    pub phase: SetupPhase,
}

/// What the caller is to do next.
#[derive(Clone, Copy, Debug, PartialEq, Eq, Structural)]
pub enum SetupAction {
    /// Fetch connector `i` of the device's connector list and report it.
    InspectConnector(usize),
    /// Fetch the chosen encoder of the connector just reported and report it.
    InspectEncoder(EncoderChoice),
    /// Drive the connector just reported through the encoder just reported and
    /// the chosen CRTC; the search is over.
    Use(CrtcChoice),
    /// The driver refused a request; the search gives up without a setup.
    Abort,
    /// No connector can be used; the search is over without a setup.
    NoDisplay,
}

/// An answer to the last request: `None` when the driver refused it.
#[derive(Clone, Copy, Debug, PartialEq, Eq, Structural)]
pub enum SetupEvent {
    Connector(Option<ConnectorSummary>),
    Encoder(Option<EncoderSummary>),
}

impl SetupSearch {
    /// The search state is consistent: until it is over, the connector being
    /// examined exists.
    pub open spec fn wf(&self) -> bool {
        self.phase != SetupPhase::Finished ==> self.current < self.connector_count
    }

    /// The event answers the request the search is waiting on.
    pub open spec fn expects(&self, event: SetupEvent) -> bool {
        match event {
            SetupEvent::Connector(_) => self.phase == SetupPhase::AwaitingConnector,
            SetupEvent::Encoder(_) => self.phase == SetupPhase::AwaitingEncoder,
        }
    }

    /// Moving on to the next connector, or ending the search when there is none.
    pub open spec fn advanced(self) -> (SetupSearch, SetupAction) {
        if self.current + 1 < self.connector_count {
            (
                SetupSearch {
                    current: (self.current + 1) as usize,
                    phase: SetupPhase::AwaitingConnector,
                    ..self
                },
                SetupAction::InspectConnector((self.current + 1) as usize),
            )
        } else {
            (SetupSearch { phase: SetupPhase::Finished, ..self }, SetupAction::NoDisplay)
        }
    }

    /// The next state and request after `event`.
    pub open spec fn transition(self, event: SetupEvent) -> (SetupSearch, SetupAction) {
        match event {
            SetupEvent::Connector(None) | SetupEvent::Encoder(None) => (
                SetupSearch { phase: SetupPhase::Finished, ..self },
                SetupAction::Abort,
            ),
            SetupEvent::Connector(Some(c)) => match encoder_choice(c) {
                Some(choice) => (
                    SetupSearch { phase: SetupPhase::AwaitingEncoder, ..self },
                    SetupAction::InspectEncoder(choice),
                ),
                None => self.advanced(),
            },
            SetupEvent::Encoder(Some(e)) => match crtc_choice(e, self.crtc_count) {
                Some(crtc) => (
                    SetupSearch { phase: SetupPhase::Finished, ..self },
                    SetupAction::Use(crtc),
                ),
                None => self.advanced(),
            },
        }
    }

    /// Starts a search over `connector_count` connectors and `crtc_count`
    /// CRTCs: it asks for the first connector, or reports that there is no
    /// display when there are no connectors.
    pub fn start(connector_count: usize, crtc_count: usize) -> (res: (SetupSearch, SetupAction))
        ensures
            res.0.wf(),
            res.0.connector_count == connector_count,
            res.0.crtc_count == crtc_count,
            res.0.current == 0,
            connector_count == 0 ==> res.0.phase == SetupPhase::Finished && res.1
                == SetupAction::NoDisplay,
            connector_count > 0 ==> res.0.phase == SetupPhase::AwaitingConnector && res.1
                == SetupAction::InspectConnector(0),
    {
        if connector_count == 0 {
            (
                SetupSearch { connector_count, crtc_count, current: 0, phase: SetupPhase::Finished },
                SetupAction::NoDisplay,
            )
        } else {
            (
                SetupSearch {
                    connector_count,
                    crtc_count,
                    current: 0,
                    phase: SetupPhase::AwaitingConnector,
                },
                SetupAction::InspectConnector(0),
            )
        }
    }

    fn advance(&mut self) -> (action: SetupAction)
        requires
            old(self).wf(),
            old(self).phase != SetupPhase::Finished,
        ensures
            (*final(self), action) == old(self).advanced(),
    {
        if self.current + 1 < self.connector_count {
            self.current = self.current + 1;
            self.phase = SetupPhase::AwaitingConnector;
            SetupAction::InspectConnector(self.current)
        } else {
            self.phase = SetupPhase::Finished;
            SetupAction::NoDisplay
        }
    }

    /// Takes the answer to the last request and gives the next request: a
    /// refused request ends the search; a connector without a usable encoder,
    /// or an encoder without a usable CRTC, moves the search to the next
    /// connector; otherwise the encoder is fetched, or the CRTC is chosen.
    pub fn step(&mut self, event: SetupEvent) -> (action: SetupAction)
        requires
            old(self).wf(),
            old(self).expects(event),
            event matches SetupEvent::Encoder(Some(e)) ==> crtc_scan_in_range(
                e,
                old(self).crtc_count,
            ),
        ensures
            final(self).wf(),
            (*final(self), action) == old(self).transition(event),
    {
        match event {
            SetupEvent::Connector(None) | SetupEvent::Encoder(None) => {
                self.phase = SetupPhase::Finished;
                SetupAction::Abort
            },
            SetupEvent::Connector(Some(c)) => match choose_encoder(&c) {
                Some(choice) => {
                    self.phase = SetupPhase::AwaitingEncoder;
                    SetupAction::InspectEncoder(choice)
                },
                None => self.advance(),
            },
            SetupEvent::Encoder(Some(e)) => match choose_crtc(&e, self.crtc_count) {
                Some(crtc) => {
                    self.phase = SetupPhase::Finished;
                    SetupAction::Use(crtc)
                },
                None => self.advance(),
            },
        }
    }
}

/// Index of the mode to use: the first mode flagged as preferred, or mode 0
/// when none is.
pub fn preferred_mode_index(preferred: &Vec<bool>) -> (index: usize)
    requires
        preferred@.len() > 0,
    ensures
        index < preferred@.len(),
        preferred@[index as int] ==> forall|j: int| 0 <= j < index ==> !preferred@[j],
        !preferred@[index as int] ==> index == 0 && forall|j: int|
            0 <= j < preferred@.len() ==> !preferred@[j],
{
    let mut i: usize = 0;
    while i < preferred.len()
        invariant
            i <= preferred@.len(),
            forall|j: int| 0 <= j < i ==> !preferred@[j],
        decreases preferred@.len() - i,
    {
        if preferred[i] {
            return i;
        }
        i = i + 1;
    }
    0
}

/// How much of the search is left: two requests per connector not yet
/// finished, one less once the current connector's encoder has been asked for.
pub open spec fn remaining_requests(s: SetupSearch) -> int {
    match s.phase {
        SetupPhase::Finished => 0,
        SetupPhase::AwaitingConnector => 2 * (s.connector_count - s.current),
        SetupPhase::AwaitingEncoder => 2 * (s.connector_count - s.current) - 1,
    }
}

/// The search always ends: every answer either finishes it or leaves fewer
/// requests to make, so it makes at most two requests per connector.
pub proof fn lemma_search_progresses(s: SetupSearch, event: SetupEvent)
    requires
        s.wf(),
        s.expects(event),
    ensures
        s.transition(event).0.wf(),
        0 <= remaining_requests(s.transition(event).0) < remaining_requests(s),
        remaining_requests(s) <= 2 * s.connector_count,
{
}

} // verus!
