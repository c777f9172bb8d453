//! Writing zone colors to the G560 through an injectable report transport.

use vstd::prelude::*;

use crate::color::{all_black, zone_index, Rgb8, Zone, ZoneColors};
use crate::usb::protocol::{
    encode_solid, encode_solid_index, solid_report, spec_zone_index, REPORT_LEN,
};

verus! {

/// Pause in milliseconds between the four reports of one color update.
pub const REPORT_DELAY_MS: u64 = 20;

/// Failure kinds reported by libusb.
#[derive(Clone, Copy, Debug, PartialEq, Eq, Structural)]
pub enum LibUsbErrorKind {
    Io,
    InvalidParam,
    Access,
    NoDevice,
    NotFound,
    Busy,
    Timeout,
    Overflow,
    Pipe,
    Interrupted,
    NoMem,
    NotSupported,
    BadDescriptor,
    Other,
}

#[derive(Clone, Copy, Debug, PartialEq, Eq, Structural)]
pub enum UsbError {
    DeviceNotFound,
    MissingInterface(u8),
    UnsafeInterface { interface: u8, class: u8 },
    Usb(LibUsbErrorKind),
    ShortWrite { expected: usize, actual: usize },
    InvalidZoneIndex(u8),
}

/// Something that can deliver one output report to the device.
/// Implementations are its users'. One that keeps a record of the reports
/// handed to it and of its answers says so through `obeys_transport_spec`;
/// the driver's promises about what a transport receives, and about how
/// its answers decide the driver's result, hold of such transports.
pub trait UsbTransport {
    /// Whether `handed` and `answers` are this transport's record of the
    /// reports handed to it and of its answers. Unless an implementation
    /// says so, they are not.
    open spec fn obeys_transport_spec() -> bool {
        false
    }

    /// The reports handed to this transport so far, in order.
    open spec fn handed(&self) -> Seq<Seq<u8>> {
        Seq::empty()
    }

    /// The answers this transport gave so far, in order: `None` for an
    /// accepted report, the error for a refused one.
    open spec fn answers(&self) -> Seq<Option<UsbError>> {
        Seq::empty()
    }

    /// The answer this transport will give to the report after the next
    /// `n` ones.
    open spec fn upcoming(&self, n: nat) -> Option<UsbError> {
        None
    }

    fn write_report(&mut self, report: &[u8; REPORT_LEN]) -> (result: Result<(), UsbError>)
        ensures
            Self::obeys_transport_spec() ==> {
                &&& final(self).handed() == old(self).handed().push(report@)
                &&& final(self).answers() == old(self).answers().push(answer_of(result))
                &&& answer_of(result) == old(self).upcoming(0)
                &&& forall|n: nat| #[trigger] final(self).upcoming(n) == old(self).upcoming(n + 1)
            },
    ;
}

/// Something that can pause between reports. Implementations are its
/// users'. One that keeps a record of its pauses says so through
/// `obeys_delay_spec`.
pub trait ReportDelay {
    /// Whether `waited` is this delay's record of its pauses. Unless an
    /// implementation says so, it is not.
    open spec fn obeys_delay_spec() -> bool {
        false
    }

    /// The pauses asked of this delay so far, in milliseconds, in order.
    open spec fn waited(&self) -> Seq<u64> {
        Seq::empty()
    }

    fn wait(&mut self, millis: u64)
        ensures
            Self::obeys_delay_spec() ==> final(self).waited() == old(self).waited().push(millis),
    ;
}

/// A transport's answer as its record keeps it: `None` for acceptance,
/// the error for a refusal.
pub open spec fn answer_of(result: Result<(), UsbError>) -> Option<UsbError> {
    match result {
        Ok(_) => None,
        Err(error) => Some(error),
    }
}

/// The answer a scripted transport gives to its report number `call`: the
/// scripted one while the script lasts, acceptance after it.
pub open spec fn scripted_answer(script: Seq<Result<(), UsbError>>, call: int) -> Result<(), UsbError> {
    if call < script.len() {
        script[call]
    } else {
        Ok(())
    }
}

/// A transport that keeps every report handed to it, in order, and answers
/// report number `i` with `script[i]`, accepting every report once the
/// script has run out.
pub struct RecordingTransport {
    pub reports: Vec<[u8; REPORT_LEN]>,
    pub script: Vec<Result<(), UsbError>>,
}

impl RecordingTransport {
    /// A transport that has been handed nothing and accepts every report.
    pub fn new() -> (transport: RecordingTransport)
        ensures
            transport.reports@ == Seq::<[u8; REPORT_LEN]>::empty(),
            transport.script@ == Seq::<Result<(), UsbError>>::empty(),
    {
        RecordingTransport { reports: Vec::new(), script: Vec::new() }
    }

    /// A transport that has been handed nothing and answers its first
    /// reports as `script` says.
    pub fn with_answers(script: Vec<Result<(), UsbError>>) -> (transport: RecordingTransport)
        ensures
            transport.reports@ == Seq::<[u8; REPORT_LEN]>::empty(),
            transport.script@ == script@,
    {
        RecordingTransport { reports: Vec::new(), script }
    }
}

impl UsbTransport for RecordingTransport {
    open spec fn obeys_transport_spec() -> bool {
        true
    }

    open spec fn handed(&self) -> Seq<Seq<u8>> {
        self.reports@.map_values(|report: [u8; REPORT_LEN]| report@)
    }

    open spec fn answers(&self) -> Seq<Option<UsbError>> {
        Seq::new(self.reports@.len(), |call: int| answer_of(scripted_answer(self.script@, call)))
    }

    open spec fn upcoming(&self, n: nat) -> Option<UsbError> {
        answer_of(scripted_answer(self.script@, (self.reports@.len() + n) as int))
    }

    fn write_report(&mut self, report: &[u8; REPORT_LEN]) -> (result: Result<(), UsbError>)
        ensures
            result == scripted_answer(old(self).script@, old(self).reports@.len() as int),
            final(self).script == old(self).script,
    {
        let call = self.reports.len();
        let result = if call < self.script.len() {
            self.script[call]
        } else {
            Ok(())
        };
        self.reports.push(*report);
        assert(self.handed() =~= old(self).handed().push(report@));
        assert(self.answers() =~= old(self).answers().push(answer_of(result)));
        result
    }
}

/// A delay that does not pause but keeps each requested pause, in order.
pub struct RecordingDelay {
    pub pauses: Vec<u64>,
}

impl RecordingDelay {
    /// A delay that has been asked for nothing.
    pub fn new() -> (delay: RecordingDelay)
        ensures
            delay.pauses@ == Seq::<u64>::empty(),
    {
        RecordingDelay { pauses: Vec::new() }
    }
}

impl ReportDelay for RecordingDelay {
    open spec fn obeys_delay_spec() -> bool {
        true
    }

    open spec fn waited(&self) -> Seq<u64> {
        self.pauses@
    }

    fn wait(&mut self, millis: u64) {
        self.pauses.push(millis);
    }
}

/// The report that sets zone `k` (in logical order) of `colors`.
pub open spec fn zone_report(colors: ZoneColors, k: int) -> Seq<u8> {
    let zone = if k == 0 {
        Zone::LeftRear
    } else if k == 1 {
        Zone::LeftFront
    } else if k == 2 {
        Zone::RightFront
    } else {
        Zone::RightRear
    };
    solid_report(spec_zone_index(zone), colors.0[k])
}

/// The four reports of one update of `colors`, in logical zone order.
pub open spec fn zone_reports(colors: ZoneColors) -> Seq<Seq<u8>> {
    seq![
        zone_report(colors, 0),
        zone_report(colors, 1),
        zone_report(colors, 2),
        zone_report(colors, 3),
    ]
}

/// `count` pauses of the inter-report delay.
pub open spec fn report_pauses(count: nat) -> Seq<u64> {
    Seq::new(count, |i: int| REPORT_DELAY_MS)
}

/// `count` accepting answers.
pub open spec fn accepted(count: nat) -> Seq<Option<UsbError>> {
    Seq::new(count, |i: int| None::<UsbError>)
}

/// The G560 driver. It remembers the last colors that were fully written
/// so that an identical update is skipped.
pub struct G560<T, D> {
    transport: T,
    delay: D,
    previous: Option<ZoneColors>,
}

impl<T: UsbTransport, D: ReportDelay> G560<T, D> {
    /// The colors of the last update that completed, if any.
    pub closed spec fn last_written(&self) -> Option<ZoneColors> {
        self.previous
    }

    /// A driver that has written nothing yet.
    pub fn new(transport: T, delay: D) -> (device: Self)
        ensures
            device.last_written() is None,
            device.spec_transport() == transport,
            device.spec_delay() == delay,
    {
        G560 { transport, delay, previous: None }
    }

    /// The transport the driver writes through.
    pub closed spec fn spec_transport(&self) -> T {
        self.transport
    }

    /// The delay the driver pauses with.
    pub closed spec fn spec_delay(&self) -> D {
        self.delay
    }

    /// From `before` to `after` the driver sent one complete update of
    /// `colors`: the four reports in zone order, each accepted, with the
    /// three inter-report pauses.
    pub open spec fn sent_update(before: Self, after: Self, colors: ZoneColors) -> bool {
        &&& T::obeys_transport_spec() ==> {
            &&& after.spec_transport().handed() == before.spec_transport().handed() + zone_reports(
                colors,
            )
            &&& after.spec_transport().answers() == before.spec_transport().answers() + accepted(4)
            &&& forall|i: nat| i < 4 ==> #[trigger] before.spec_transport().upcoming(i) is None
            &&& forall|n: nat| #[trigger] after.spec_transport().upcoming(n)
                == before.spec_transport().upcoming(n + 4)
        }
        &&& D::obeys_delay_spec() ==> after.spec_delay().waited() == before.spec_delay().waited()
            + report_pauses(3)
    }

    /// From `before` to `after` the driver sent an update of `colors` that
    /// the transport cut short with `error` at zone `k`: the reports up to
    /// and including zone `k` were handed over, with the pauses between
    /// them; every report before zone `k` was accepted, and zone `k`'s was
    /// refused with `error`.
    pub open spec fn sent_refused_update(before: Self, after: Self, colors: ZoneColors, error: UsbError) -> bool {
        exists|k: nat|
            k < 4 && (T::obeys_transport_spec() ==> {
                &&& after.spec_transport().handed() == before.spec_transport().handed()
                    + zone_reports(colors).take(k + 1int)
                &&& after.spec_transport().answers() == before.spec_transport().answers()
                    + #[trigger] accepted(k).push(Some(error))
                &&& before.spec_transport().upcoming(k) == Some(error)
                &&& forall|i: nat| i < k ==> #[trigger] before.spec_transport().upcoming(i) is None
                &&& forall|n: nat| #[trigger] after.spec_transport().upcoming(n)
                    == before.spec_transport().upcoming(n + k + 1)
            }) && (D::obeys_delay_spec() ==> after.spec_delay().waited()
                == before.spec_delay().waited() + report_pauses(k))
    }

    /// From `before` to `after` the driver pulsed protocol zone `index`,
    /// ending with `result`: either the white report was refused with that
    /// error and nothing followed, or it was accepted, the hold followed,
    /// and the black report was answered with `result`.
    pub open spec fn sent_pulse(before: Self, after: Self, index: u8, hold_millis: u64, result: Result<(), UsbError>) -> bool {
        let white = solid_report(index, Rgb8 { r: 255, g: 255, b: 255 });
        let black = solid_report(index, Rgb8 { r: 0, g: 0, b: 0 });
        ||| {
            &&& result is Err
            &&& T::obeys_transport_spec() ==> {
                &&& after.spec_transport().handed() == before.spec_transport().handed().push(white)
                &&& after.spec_transport().answers() == before.spec_transport().answers().push(
                    answer_of(result),
                )
                &&& before.spec_transport().upcoming(0) == answer_of(result)
                &&& forall|n: nat| #[trigger] after.spec_transport().upcoming(n)
                    == before.spec_transport().upcoming(n + 1)
            }
            &&& D::obeys_delay_spec() ==> after.spec_delay().waited() == before.spec_delay().waited()
        }
        ||| {
            &&& T::obeys_transport_spec() ==> {
                &&& after.spec_transport().handed() == before.spec_transport().handed().push(
                    white,
                ).push(black)
                &&& after.spec_transport().answers() == before.spec_transport().answers().push(
                    None,
                ).push(answer_of(result))
                &&& before.spec_transport().upcoming(0) is None
                &&& before.spec_transport().upcoming(1) == answer_of(result)
                &&& forall|n: nat| #[trigger] after.spec_transport().upcoming(n)
                    == before.spec_transport().upcoming(n + 2)
            }
            &&& D::obeys_delay_spec() ==> after.spec_delay().waited() == before.spec_delay().waited().push(
                hold_millis,
            )
        }
    }

    /// From `before` to `after` the driver handed nothing to the transport
    /// or the delay.
    pub open spec fn sent_nothing(before: Self, after: Self) -> bool {
        &&& after.spec_transport() == before.spec_transport()
        &&& after.spec_delay() == before.spec_delay()
    }

    /// The transport the driver writes through.
    pub fn transport(&self) -> (transport: &T)
        ensures
            *transport == self.spec_transport(),
    {
        &self.transport
    }

    /// The delay the driver pauses with.
    pub fn delay(&self) -> (delay: &D)
        ensures
            *delay == self.spec_delay(),
    {
        &self.delay
    }

    /// Writes all four zones unless the same colors were the last ones fully
    /// written, in which case nothing is sent. The four reports go out in
    /// zone order with a 20 ms pause between them. The write succeeds when
    /// the transport accepts all four; the first refused report ends the
    /// update with the transport's error. A failure leaves the remembered
    /// colors untouched, so the next identical update is sent again.
    pub fn write(&mut self, colors: ZoneColors) -> (result: Result<(), UsbError>)
        ensures
            old(self).last_written() == Some(colors) ==> result is Ok && Self::sent_nothing(
                *old(self),
                *final(self),
            ) && final(self).last_written() == old(self).last_written(),
            old(self).last_written() != Some(colors) ==> {
                &&& result is Ok ==> Self::sent_update(*old(self), *final(self), colors)
                    && final(self).last_written() == Some(colors)
                &&& result matches Err(error) ==> final(self).last_written() == old(self).last_written()
                    && Self::sent_refused_update(*old(self), *final(self), colors, error)
            },
    {
        let same = match self.previous {
            Some(previous) => previous == colors,
            None => false,
        };
        if same {
            proof {
                assert(self.previous.unwrap().0 =~= colors.0);
            }
            return Ok(());
        }
        proof {
            if self.previous == Some(colors) {
                assert(self.previous.unwrap().0[0] == colors.0[0]);
            }
        }
        match self.write_all(colors) {
            Ok(()) => {
                self.previous = Some(colors);
                Ok(())
            },
            Err(error) => Err(error),
        }
    }

    /// Writes all four zones black, whatever was written before: four black
    /// reports in zone order, never skipped, succeeding when the transport
    /// accepts all four.
    pub fn blackout(&mut self) -> (result: Result<(), UsbError>)
        ensures
            result is Ok ==> Self::sent_update(*old(self), *final(self), all_black())
                && final(self).last_written() == Some(all_black()),
            result matches Err(error) ==> final(self).last_written() == old(self).last_written()
                && Self::sent_refused_update(*old(self), *final(self), all_black(), error),
    {
        let black = ZoneColors::black();
        match self.write_all(black) {
            Ok(()) => {
                self.previous = Some(black);
                Ok(())
            },
            Err(error) => Err(error),
        }
    }

    /// Lights one raw protocol zone white, holds it for `hold_millis` through
    /// the driver's delay, then turns it black. Only indices 0 through 3
    /// exist; any other is refused before anything is written. A refused
    /// white report ends the pulse with the transport's error before the
    /// hold; otherwise the result is the transport's answer to the black
    /// report.
    pub fn pulse_protocol_zone(&mut self, index: u8, hold_millis: u64) -> (result: Result<
        (),
        UsbError,
    >)
        ensures
            index > 3 ==> result == Err::<(), UsbError>(UsbError::InvalidZoneIndex(index))
                && Self::sent_nothing(*old(self), *final(self)),
            index <= 3 ==> Self::sent_pulse(*old(self), *final(self), index, hold_millis, result),
            final(self).last_written() == old(self).last_written(),
    {
        if index > 3 {
            return Err(UsbError::InvalidZoneIndex(index));
        }
        let white = Rgb8 { r: 255, g: 255, b: 255 };
        let ghost start_handed = self.transport.handed();
        let ghost start_answers = self.transport.answers();
        let ghost start_transport = self.transport;
        match self.send(&encode_solid_index(index, white)) {
            Ok(()) => {},
            Err(error) => {
                return Err(error);
            },
        }
        self.pause(hold_millis);
        let result = self.send(&encode_solid_index(index, Rgb8::black()));
        proof {
            let black = Rgb8 { r: 0, g: 0, b: 0 };
            if T::obeys_transport_spec() {
                assert(self.transport.handed() =~= start_handed.push(solid_report(index, white)).push(
                    solid_report(index, black),
                ));
                assert(self.transport.answers() =~= start_answers.push(None).push(answer_of(result)));
                assert forall|n: nat| #[trigger] self.transport.upcoming(n)
                    == start_transport.upcoming(n + 2) by {
                    assert(n + 2 == (n + 1) + 1);
                }
            }
        }
        result
    }

    /// Hands one report to the transport and passes on its answer.
    fn send(&mut self, report: &[u8; REPORT_LEN]) -> (result: Result<(), UsbError>)
        ensures
            T::obeys_transport_spec() ==> {
                &&& final(self).spec_transport().handed() == old(self).spec_transport().handed().push(
                    report@,
                )
                &&& final(self).spec_transport().answers() == old(self).spec_transport().answers().push(
                    answer_of(result),
                )
                &&& answer_of(result) == old(self).spec_transport().upcoming(0)
                &&& forall|n: nat| #[trigger] final(self).spec_transport().upcoming(n)
                    == old(self).spec_transport().upcoming(n + 1)
            },
            final(self).spec_delay() == old(self).spec_delay(),
            final(self).last_written() == old(self).last_written(),
    {
        self.transport.write_report(report)
    }

    /// Pauses through the delay.
    fn pause(&mut self, millis: u64)
        ensures
            D::obeys_delay_spec() ==> final(self).spec_delay().waited() == old(
                self,
            ).spec_delay().waited().push(millis),
            final(self).spec_transport() == old(self).spec_transport(),
            final(self).last_written() == old(self).last_written(),
    {
        self.delay.wait(millis);
    }

    fn write_all(&mut self, colors: ZoneColors) -> (result: Result<(), UsbError>)
        ensures
            final(self).last_written() == old(self).last_written(),
            result is Ok ==> Self::sent_update(*old(self), *final(self), colors),
            result matches Err(error) ==> Self::sent_refused_update(*old(self), *final(self), colors, error),
    {
        let ghost start_handed = self.transport.handed();
        let ghost start_answers = self.transport.answers();
        let ghost start_waited = self.delay.waited();
        let ghost start_transport = self.transport;
        let ghost reports = zone_reports(colors);
        let zones = Zone::all();
        let mut position: usize = 0;
        assert(start_handed + reports.take(0) =~= start_handed);
        assert(start_answers + accepted(0) =~= start_answers);
        while position < 4
            invariant
                0 <= position <= 4,
                zones == [Zone::LeftRear, Zone::LeftFront, Zone::RightFront, Zone::RightRear],
                reports == zone_reports(colors),
                self.previous == old(self).previous,
                start_handed == old(self).transport.handed(),
                start_answers == old(self).transport.answers(),
                start_waited == old(self).delay.waited(),
                start_transport == old(self).transport,
                T::obeys_transport_spec() ==> self.transport.handed() == start_handed + reports.take(
                    position as int,
                ) && self.transport.answers() == start_answers + accepted(position as nat),
                T::obeys_transport_spec() ==> forall|i: nat|
                    i < position ==> #[trigger] start_transport.upcoming(i) is None,
                T::obeys_transport_spec() ==> forall|n: nat| #[trigger] self.transport.upcoming(n)
                    == start_transport.upcoming((n + position) as nat),
                D::obeys_delay_spec() && position == 0 ==> self.delay.waited() == start_waited,
                D::obeys_delay_spec() && position > 0 ==> self.delay.waited() == start_waited
                    + report_pauses((position - 1) as nat),
            decreases 4 - position,
        {
            if position > 0 {
                self.pause(REPORT_DELAY_MS);
                assert(report_pauses(position as nat) =~= report_pauses((position - 1) as nat).push(
                    REPORT_DELAY_MS,
                ));
            }
            proof {
                if position == 0 && D::obeys_delay_spec() {
                    assert(report_pauses(0) =~= Seq::<u64>::empty());
                    assert(self.delay.waited() =~= start_waited + report_pauses(0));
                }
            }
            let zone = zones[position];
            let report = encode_solid(zone, colors.get(zone));
            assert(report@ == zone_report(colors, position as int));
            let sent = self.send(&report);
            assert(reports.take(position + 1) =~= reports.take(position as int).push(report@));
            match sent {
                Ok(()) => {
                    assert(accepted((position + 1) as nat) =~= accepted(position as nat).push(
                        None,
                    ));
                    proof {
                        if T::obeys_transport_spec() {
                            assert(self.transport.handed() =~= start_handed + reports.take(
                                position + 1,
                            ));
                            assert(self.transport.answers() =~= start_answers + accepted(
                                (position + 1) as nat,
                            ));
                            assert(start_transport.upcoming(position as nat) is None);
                            assert forall|n: nat| #[trigger] self.transport.upcoming(n)
                                == start_transport.upcoming((n + position + 1) as nat) by {
                                assert(n + 1 + position == n + (position + 1));
                            }
                        }
                    }
                },
                Err(error) => {
                    proof {
                        if T::obeys_transport_spec() {
                            assert(self.transport.answers() =~= start_answers + accepted(
                                position as nat,
                            ).push(Some(error)));
                            assert(self.transport.handed() =~= start_handed + reports.take(
                                position + 1,
                            ));
                        }
                        let k: nat = position as nat;
                        assert(accepted(k).push(Some(error)) == accepted(position as nat).push(Some(error)));
                        if D::obeys_delay_spec() {
                            assert(self.delay.waited() =~= start_waited + report_pauses(
                                position as nat,
                            ));
                        }
                    }
                    return Err(error);
                },
            }
            position = position + 1;
        }
        assert(reports.take(4) =~= reports);
        Ok(())
    }
}

} // verus!
