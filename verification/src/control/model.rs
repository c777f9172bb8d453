//! The service's controller: the requested lighting state, what was last
//! confirmed on the device, health, and the runtime effect of each request.

use vstd::prelude::*;

use crate::api::{
    manual_updates_verdict, validate_manual_updates, ApiError, DiagnosticCounters, HealthState,
    LightingMode, ManualZone, ManualZoneUpdate, RgbColor, ServiceSnapshot, ZoneColor, ZoneId,
    API_VERSION,
};
use crate::color::{all_black, id_of_zone, Rgb8, Zone, ZoneColors};
use crate::config::{config_valid, config_verdict, lemma_valid_config_shape, zone_count, AppConfig, ConfigValidationError};

verus! {

/// What the runtime must do after a model change.
#[derive(Clone, Copy, Debug, PartialEq, Eq)]
pub enum ModelEffect {
    NoWrite,
    Write(ZoneColors),
    StartContentAware,
    StopContentAwareAndWrite(ZoneColors),
    PriorityBlackout,
}

#[derive(Debug)]
pub struct ControllerModel {
    config: AppConfig,
    confirmed_colors: ZoneColors,
    pending: bool,
    revision: u64,
    service_health: HealthState,
    device_health: HealthState,
    capture_health: HealthState,
    writer_health: HealthState,
    diagnostics: DiagnosticCounters,
}

/// The abstract state of the controller.
pub struct ModelState {
    pub config: AppConfig,
    pub confirmed_colors: ZoneColors,
    pub pending: bool,
    pub revision: u64,
    pub service_health: HealthState,
    pub device_health: HealthState,
    pub capture_health: HealthState,
    pub writer_health: HealthState,
    pub diagnostics: DiagnosticCounters,
}

impl View for ControllerModel {
    type V = ModelState;

    closed spec fn view(&self) -> ModelState {
        ModelState {
            config: self.config,
            confirmed_colors: self.confirmed_colors,
            pending: self.pending,
            revision: self.revision,
            service_health: self.service_health,
            device_health: self.device_health,
            capture_health: self.capture_health,
            writer_health: self.writer_health,
            diagnostics: self.diagnostics,
        }
    }
}

/// The revision after one more change; it wraps at the top of the range.
pub open spec fn next_revision(revision: u64) -> u64 {
    if revision == u64::MAX {
        0
    } else {
        (revision + 1) as u64
    }
}

/// The revision after a step that changed the state or not.
pub open spec fn revision_after(revision: u64, changed: bool) -> u64 {
    if changed {
        next_revision(revision)
    } else {
        revision
    }
}

/// The setting a valid configuration holds for `zone`.
pub open spec fn setting_for(zones: [ManualZone; 4], zone: ZoneId) -> ManualZone {
    if zones[0].zone == zone {
        zones[0]
    } else if zones[1].zone == zone {
        zones[1]
    } else if zones[2].zone == zone {
        zones[2]
    } else {
        zones[3]
    }
}

/// A channel at `brightness` percent, rounded to nearest.
pub open spec fn scale_channel(value: u8, brightness: u8) -> u8 {
    let scaled = (value * brightness + 50) / 100;
    if scaled > 255 {
        255
    } else {
        scaled as u8
    }
}

/// A color at `brightness` percent.
pub open spec fn scale_color(color: RgbColor, brightness: u8) -> Rgb8 {
    Rgb8 {
        r: scale_channel(color.red, brightness),
        g: scale_channel(color.green, brightness),
        b: scale_channel(color.blue, brightness),
    }
}

pub open spec fn zone_target(zones: [ManualZone; 4], zone: Zone) -> Rgb8 {
    let setting = setting_for(zones, id_of_zone(zone));
    scale_color(setting.color, setting.brightness)
}

/// What manual mode shows: black while the lights are off, otherwise each
/// zone's saved color at its saved brightness.
pub open spec fn manual_target_of(config: AppConfig) -> ZoneColors {
    if !config.lights_enabled {
        all_black()
    } else {
        ZoneColors(
            [
                zone_target(config.manual_zones, Zone::LeftRear),
                zone_target(config.manual_zones, Zone::LeftFront),
                zone_target(config.manual_zones, Zone::RightFront),
                zone_target(config.manual_zones, Zone::RightRear),
            ],
        )
    }
}

/// The settings after applying one zone's update.
pub open spec fn apply_update(zones: [ManualZone; 4], update: ManualZoneUpdate) -> [ManualZone; 4] {
    let replacement = ManualZone {
        zone: update.zone,
        color: update.color,
        brightness: update.brightness,
    };
    [
        if zones[0].zone == update.zone { replacement } else { zones[0] },
        if zones[1].zone == update.zone { replacement } else { zones[1] },
        if zones[2].zone == update.zone { replacement } else { zones[2] },
        if zones[3].zone == update.zone { replacement } else { zones[3] },
    ]
}

/// The settings after applying the first `n` updates in order.
pub open spec fn apply_updates(zones: [ManualZone; 4], updates: Seq<ManualZoneUpdate>, n: nat) -> [ManualZone; 4]
    decreases n,
{
    if n == 0 {
        zones
    } else {
        apply_update(apply_updates(zones, updates, (n - 1) as nat), updates[n - 1])
    }
}

/// The effect of switching from `previous` to `mode`.
pub open spec fn mode_switch_effect(
    previous: LightingMode,
    mode: LightingMode,
    lights_enabled: bool,
    target: ZoneColors,
) -> ModelEffect {
    if !lights_enabled {
        ModelEffect::NoWrite
    } else if previous == LightingMode::Manual && mode == LightingMode::ContentAware {
        ModelEffect::StartContentAware
    } else if previous == LightingMode::ContentAware && mode == LightingMode::Manual {
        ModelEffect::StopContentAwareAndWrite(target)
    } else {
        ModelEffect::NoWrite
    }
}

/// Everything but the named parts of the state is as before.
pub open spec fn same_health_and_diagnostics(a: ModelState, b: ModelState) -> bool {
    &&& a.service_health == b.service_health
    &&& a.device_health == b.device_health
    &&& a.capture_health == b.capture_health
    &&& a.diagnostics == b.diagnostics
}

/// The state apart from its revision.
pub open spec fn unrevised(state: ModelState) -> ModelState {
    ModelState { revision: 0, ..state }
}

/// The model after a grouped manual update, and the answer: refused
/// updates and updates in content-aware mode change nothing; otherwise the
/// named zones take their settings, the revision advances if a setting
/// changed, and the new target is written if the lights are on.
pub open spec fn manual_update_step(state: ModelState, updates: Seq<ManualZoneUpdate>) -> (ModelState, Result<ModelEffect, ApiError>) {
    match manual_updates_verdict(updates) {
        Err(error) => (state, Err(error)),
        Ok(()) => if state.config.mode == LightingMode::ContentAware {
            (state, Err(ApiError::ModeConflict))
        } else {
            let zones = apply_updates(state.config.manual_zones, updates, updates.len());
            let config = AppConfig { manual_zones: zones, ..state.config };
            let next = ModelState {
                config,
                revision: revision_after(state.revision, zones != state.config.manual_zones),
                ..state
            };
            (next, Ok(if config.lights_enabled { ModelEffect::Write(manual_target_of(config)) } else { ModelEffect::NoWrite }))
        },
    }
}

/// The model after a mode switch, and its runtime effect.
pub open spec fn set_mode_step(state: ModelState, mode: LightingMode) -> (ModelState, ModelEffect) {
    if mode == state.config.mode {
        (state, ModelEffect::NoWrite)
    } else {
        let config = AppConfig { mode, ..state.config };
        (
            ModelState { config, revision: next_revision(state.revision), ..state },
            mode_switch_effect(state.config.mode, mode, config.lights_enabled, manual_target_of(config)),
        )
    }
}

/// The model after turning the lights on or off, and its runtime effect.
pub open spec fn set_lights_step(state: ModelState, enabled: bool) -> (ModelState, ModelEffect) {
    if enabled == state.config.lights_enabled {
        (state, ModelEffect::NoWrite)
    } else {
        let config = AppConfig { lights_enabled: enabled, ..state.config };
        (
            ModelState { config, revision: next_revision(state.revision), ..state },
            if !enabled {
                ModelEffect::PriorityBlackout
            } else if config.mode == LightingMode::Manual {
                ModelEffect::Write(manual_target_of(config))
            } else {
                ModelEffect::StartContentAware
            },
        )
    }
}

/// The model after a write was requested but not yet confirmed.
pub open spec fn pending_step(state: ModelState) -> ModelState {
    ModelState { pending: true, revision: revision_after(state.revision, !state.pending), ..state }
}

/// The model after the device confirmed `colors`.
pub open spec fn confirm_step(state: ModelState, colors: ZoneColors) -> ModelState {
    ModelState {
        confirmed_colors: colors,
        pending: false,
        writer_health: HealthState::Ready,
        revision: revision_after(
            state.revision,
            state.confirmed_colors != colors || state.pending || state.writer_health != HealthState::Ready,
        ),
        ..state
    }
}

/// The model after a failed device write.
pub open spec fn failure_step(state: ModelState) -> ModelState {
    ModelState {
        writer_health: HealthState::Failed,
        revision: revision_after(state.revision, state.writer_health != HealthState::Failed),
        ..state
    }
}

/// The model after first-run setup completed.
pub open spec fn setup_complete_step(state: ModelState) -> ModelState {
    ModelState {
        config: AppConfig { setup_complete: true, ..state.config },
        revision: revision_after(state.revision, !state.config.setup_complete),
        ..state
    }
}

fn scale_channel_exec(value: u8, brightness: u8) -> (scaled: u8)
    ensures
        scaled == scale_channel(value, brightness),
{
    assert((value as u16) * (brightness as u16) <= 255 * 255) by (nonlinear_arith)
        requires
            value <= 255,
            brightness <= 255,
    ;
    let product: u16 = (value as u16) * (brightness as u16);
    let scaled: u16 = (product + 50) / 100;
    if scaled > 255 {
        255
    } else {
        scaled as u8
    }
}

/// Scales a color to `brightness` percent, rounding each channel to
/// nearest and never exceeding 255.
pub fn scale(color: Rgb8, brightness: u8) -> (scaled: Rgb8)
    ensures
        scaled == scale_color(RgbColor { red: color.r, green: color.g, blue: color.b }, brightness),
{
    Rgb8 {
        r: scale_channel_exec(color.r, brightness),
        g: scale_channel_exec(color.g, brightness),
        b: scale_channel_exec(color.b, brightness),
    }
}

/// At brightness 0 every color is black, and no brightness up to 100
/// makes a channel brighter than it was.
pub proof fn lemma_scale_bounds(value: u8, brightness: u8)
    requires
        brightness <= 100,
    ensures
        scale_channel(value, 0) == 0,
        scale_channel(value, brightness) <= value,
        scale_channel(value, 100) == value,
{
    assert(value * brightness <= value * 100) by (nonlinear_arith)
        requires
            brightness <= 100,
    ;
}

impl ControllerModel {
    /// The model's configuration is always valid.
    #[verifier::type_invariant]
    spec fn valid_configuration(&self) -> bool {
        config_valid(self.config)
    }

    /// A model over a configuration that passes validation, starting black,
    /// not pending, at revision 0, with the service starting and everything
    /// else in an unknown state.
    pub fn new(config: AppConfig) -> (result: Result<ControllerModel, ConfigValidationError>)
        ensures
            match config_verdict(config) {
                Err(error) => result == Err::<ControllerModel, ConfigValidationError>(error),
                Ok(()) => result matches Ok(model) && model@ == (ModelState {
                    config,
                    confirmed_colors: all_black(),
                    pending: false,
                    revision: 0,
                    service_health: HealthState::Starting,
                    device_health: HealthState::Unknown,
                    capture_health: HealthState::Unknown,
                    writer_health: HealthState::Unknown,
                    diagnostics: DiagnosticCounters {
                        captured_frames: 0,
                        newest_value_replacements: 0,
                        capture_stalls: 0,
                        usb_recoveries: 0,
                        usb_report_failures: 0,
                        capture_rate_millihertz: 0,
                        last_successful_write_age_ms: None,
                    },
                }),
            },
    {
        match config.validate() {
            Err(error) => Err(error),
            Ok(()) => Ok(
                ControllerModel {
                    config,
                    confirmed_colors: ZoneColors::black(),
                    pending: false,
                    revision: 0,
                    service_health: HealthState::Starting,
                    device_health: HealthState::Unknown,
                    capture_health: HealthState::Unknown,
                    writer_health: HealthState::Unknown,
                    diagnostics: DiagnosticCounters {
                        captured_frames: 0,
                        newest_value_replacements: 0,
                        capture_stalls: 0,
                        usb_recoveries: 0,
                        usb_report_failures: 0,
                        capture_rate_millihertz: 0,
                        last_successful_write_age_ms: None,
                    },
                },
            ),
        }
    }

    /// The configuration the model holds.
    pub fn config(&self) -> (config: &AppConfig)
        ensures
            *config == self@.config,
    {
        &self.config
    }

    fn advance(&mut self)
        ensures
            final(self)@ == (ModelState { revision: next_revision(old(self)@.revision), ..old(self)@ }),
    {
        proof {
            use_type_invariant(&*self);
        }
        self.revision = if self.revision == u64::MAX {
            0
        } else {
            self.revision + 1
        };
    }

    fn advance_if(&mut self, changed: bool)
        ensures
            final(self)@ == (ModelState {
                revision: revision_after(old(self)@.revision, changed),
                ..old(self)@
            }),
    {
        if changed {
            self.advance();
        }
    }

    /// Applies a grouped manual update atomically. A refused update (see
    /// `validate_manual_updates`), or any update in content-aware mode,
    /// changes nothing. Otherwise the named zones take their new settings,
    /// the revision advances only if a setting actually changed, and the
    /// new manual target is written if the lights are on.
    pub fn apply_manual_updates(&mut self, updates: &[ManualZoneUpdate]) -> (result: Result<
        ModelEffect,
        ApiError,
    >)
        ensures
            (final(self)@, result) == manual_update_step(old(self)@, updates@),
    {
        proof {
            use_type_invariant(&*self);
        }
        match validate_manual_updates(updates) {
            Err(error) => return Err(error),
            Ok(()) => {},
        }
        if self.config.mode == LightingMode::ContentAware {
            return Err(ApiError::ModeConflict);
        }
        proof {
            lemma_valid_config_shape(self.config);
        }
        let initial = self.config.manual_zones;
        let mut zones = initial;
        let mut changed = false;
        let mut i: usize = 0;
        while i < updates.len()
            invariant
                i <= updates@.len(),
                crate::api::manual_updates_acceptable(updates@),
                self@ == old(self)@,
                initial == old(self).config.manual_zones,
                config_valid(AppConfig { manual_zones: zones, ..old(self).config }),
                zones == apply_updates(initial, updates@, i as nat),
                forall|p: int| 0 <= p < 4 ==> (#[trigger] zones[p]).zone == initial[p].zone,
                forall|p: int| 0 <= p < 4 && (forall|j: int| 0 <= j < i ==> updates@[j].zone != #[trigger] initial[p].zone)
                    ==> zones[p] == initial[p],
                changed == (zones != initial),
            decreases updates@.len() - i,
        {
            let update = updates[i];
            let replacement = ManualZone {
                zone: update.zone,
                color: update.color,
                brightness: update.brightness,
            };
            proof {
                lemma_valid_config_shape(AppConfig { manual_zones: zones, ..old(self).config });
            }
            let position = position_in(&zones, update.zone);
            let ghost before = zones;
            proof {
                // The zone has not been touched by an earlier update.
                assert forall|j: int| 0 <= j < i implies updates@[j].zone != #[trigger] initial[position as int].zone by {
                    assert(updates@[j].zone != updates@[i as int].zone);
                }
                assert(before[position as int] == initial[position as int]);
            }
            let differs = zones[position] != replacement;
            changed = changed || differs;
            zones[position] = replacement;
            proof {
                let after = zones;
                assert(after =~= apply_update(before, update)) by {
                    assert forall|p: int| 0 <= p < 4 && p != position implies before[p].zone != update.zone by {
                        lemma_unique_position(before, update.zone, position as int, p);
                    }
                }
                assert(zones == apply_updates(initial, updates@, (i + 1) as nat));
                assert(zone_count(after, ZoneId::LeftRear) == zone_count(before, ZoneId::LeftRear));
                assert(zone_count(after, ZoneId::LeftFront) == zone_count(before, ZoneId::LeftFront));
                assert(zone_count(after, ZoneId::RightFront) == zone_count(before, ZoneId::RightFront));
                assert(zone_count(after, ZoneId::RightRear) == zone_count(before, ZoneId::RightRear));
                assert(updates@[i as int].brightness <= 100);
                if changed {
                    if !differs {
                        assert(before != initial);
                        assert(!(before =~= initial));
                        let q = choose|q: int| 0 <= q < 4 && before[q] != initial[q];
                        assert(after[q] != initial[q]);
                    } else {
                        assert(after[position as int] != initial[position as int]);
                    }
                    assert(after != initial);
                } else {
                    assert(before =~= initial);
                    assert(after =~= initial);
                }
            }
            i = i + 1;
        }
        self.config.manual_zones = zones;
        self.advance_if(changed);
        if self.config.lights_enabled {
            Ok(ModelEffect::Write(self.manual_target()))
        } else {
            Ok(ModelEffect::NoWrite)
        }
    }

    /// Position of the unique setting for `zone`.
    fn position_of(&self, zone: ZoneId) -> (position: usize)
        ensures
            position < 4,
            self.config.manual_zones[position as int].zone == zone,
            self.config.manual_zones[position as int] == setting_for(self.config.manual_zones, zone),
    {
        proof {
            use_type_invariant(self);
            lemma_valid_config_shape(self.config);
        }
        position_in(&self.config.manual_zones, zone)
    }

    /// Switches the lighting mode. A switch to the current mode changes
    /// nothing. Otherwise the revision advances, and with the lights on,
    /// entering content-aware mode starts capture while returning to manual
    /// mode stops it and writes the manual target.
    pub fn set_mode(&mut self, mode: LightingMode) -> (effect: ModelEffect)
        ensures
            (final(self)@, effect) == set_mode_step(old(self)@, mode),
    {
        proof {
            use_type_invariant(&*self);
        }
        if self.config.mode == mode {
            return ModelEffect::NoWrite;
        }
        let previous = self.config.mode;
        self.config.mode = mode;
        self.advance();
        if !self.config.lights_enabled {
            ModelEffect::NoWrite
        } else {
            match (previous, mode) {
                (LightingMode::Manual, LightingMode::ContentAware) => ModelEffect::StartContentAware,
                (LightingMode::ContentAware, LightingMode::Manual) => {
                    ModelEffect::StopContentAwareAndWrite(self.manual_target())
                },
                _ => ModelEffect::NoWrite,
            }
        }
    }

    /// Turns all lighting on or off. No change, no effect. Turning off
    /// keeps the mode and manual settings and demands a priority blackout;
    /// turning on resumes the saved mode.
    pub fn set_lights_enabled(&mut self, enabled: bool) -> (effect: ModelEffect)
        ensures
            (final(self)@, effect) == set_lights_step(old(self)@, enabled),
    {
        proof {
            use_type_invariant(&*self);
        }
        if self.config.lights_enabled == enabled {
            return ModelEffect::NoWrite;
        }
        self.config.lights_enabled = enabled;
        self.advance();
        if !enabled {
            ModelEffect::PriorityBlackout
        } else {
            match self.config.mode {
                LightingMode::Manual => ModelEffect::Write(self.manual_target()),
                LightingMode::ContentAware => ModelEffect::StartContentAware,
            }
        }
    }

    /// Marks a requested write as not yet confirmed by the device.
    pub fn mark_pending(&mut self) -> (effect: ModelEffect)
        ensures
            effect == ModelEffect::NoWrite,
            final(self)@ == pending_step(old(self)@),
    {
        proof {
            use_type_invariant(&*self);
        }
        if !self.pending {
            self.pending = true;
            self.advance();
        }
        ModelEffect::NoWrite
    }

    /// Records colors the device has confirmed: nothing is pending and the
    /// writer is ready. The revision advances only if that changed anything.
    pub fn confirm_write(&mut self, colors: ZoneColors) -> (effect: ModelEffect)
        ensures
            effect == ModelEffect::NoWrite,
            final(self)@ == confirm_step(old(self)@, colors),
    {
        proof {
            use_type_invariant(&*self);
        }
        let changed = self.confirmed_colors != colors || self.pending || self.writer_health
            != HealthState::Ready;
        proof {
            if self.confirmed_colors == colors {
                assert(!(self.confirmed_colors != colors));
            } else {
                assert(!(self.confirmed_colors.0 =~= colors.0));
            }
        }
        self.confirmed_colors = colors;
        self.pending = false;
        self.writer_health = HealthState::Ready;
        self.advance_if(changed);
        ModelEffect::NoWrite
    }

    /// Records a failed device write: the writer has failed, while the
    /// pending request and the confirmed colors stay as they were.
    pub fn record_failure(&mut self) -> (effect: ModelEffect)
        ensures
            effect == ModelEffect::NoWrite,
            final(self)@ == failure_step(old(self)@),
    {
        proof {
            use_type_invariant(&*self);
        }
        let changed = self.writer_health != HealthState::Failed;
        self.writer_health = HealthState::Failed;
        self.advance_if(changed);
        ModelEffect::NoWrite
    }

    /// Records that first-run setup is complete.
    pub fn mark_setup_complete(&mut self) -> (effect: ModelEffect)
        ensures
            effect == ModelEffect::NoWrite,
            final(self)@ == setup_complete_step(old(self)@),
    {
        proof {
            use_type_invariant(&*self);
        }
        if !self.config.setup_complete {
            self.config.setup_complete = true;
            self.advance();
        }
        ModelEffect::NoWrite
    }

    /// The colors manual mode shows now.
    pub fn manual_target(&self) -> (target: ZoneColors)
        ensures
            target == manual_target_of(self@.config),
    {
        proof {
            use_type_invariant(self);
        }
        if !self.config.lights_enabled {
            return ZoneColors::black();
        }
        let lr = self.zone_target(Zone::LeftRear);
        let lf = self.zone_target(Zone::LeftFront);
        let rf = self.zone_target(Zone::RightFront);
        let rr = self.zone_target(Zone::RightRear);
        ZoneColors([lr, lf, rf, rr])
    }

    fn zone_target(&self, zone: Zone) -> (color: Rgb8)
        ensures
            color == zone_target(self.config.manual_zones, zone),
    {
        proof {
            use_type_invariant(self);
        }
        let setting = self.manual_setting(zone);
        scale(Rgb8::from(setting.color), setting.brightness)
    }

    fn manual_setting(&self, zone: Zone) -> (setting: &ManualZone)
        ensures
            *setting == setting_for(self.config.manual_zones, id_of_zone(zone)),
    {
        proof {
            use_type_invariant(self);
        }
        let id = ZoneId::from(zone);
        let position = self.position_of(id);
        &self.config.manual_zones[position]
    }

    /// A client-facing snapshot of the model. The capture backend is
    /// unknown to the model and left empty.
    pub fn snapshot(&self) -> (snapshot: ServiceSnapshot)
        ensures
            snapshot.api_version == API_VERSION,
            snapshot.revision == self@.revision,
            snapshot.lights_enabled == self@.config.lights_enabled,
            snapshot.mode == self@.config.mode,
            snapshot.manual_zones@ == seq![
                setting_for(self@.config.manual_zones, ZoneId::LeftRear),
                setting_for(self@.config.manual_zones, ZoneId::LeftFront),
                setting_for(self@.config.manual_zones, ZoneId::RightFront),
                setting_for(self@.config.manual_zones, ZoneId::RightRear),
            ],
            snapshot.pending == self@.pending,
            snapshot.capture_backend is None,
            snapshot.service_health == self@.service_health,
            snapshot.device_health == self@.device_health,
            snapshot.capture_health == self@.capture_health,
            snapshot.writer_health == self@.writer_health,
            snapshot.diagnostics == self@.diagnostics,
            snapshot.confirmed_colors@ == seq![
                ZoneColor { zone: ZoneId::LeftRear, color: crate::color::color_of_rgb(self@.confirmed_colors.0[0]) },
                ZoneColor { zone: ZoneId::LeftFront, color: crate::color::color_of_rgb(self@.confirmed_colors.0[1]) },
                ZoneColor { zone: ZoneId::RightFront, color: crate::color::color_of_rgb(self@.confirmed_colors.0[2]) },
                ZoneColor { zone: ZoneId::RightRear, color: crate::color::color_of_rgb(self@.confirmed_colors.0[3]) },
            ],
            snapshot.setup_complete == self@.config.setup_complete,
    {
        proof {
            use_type_invariant(self);
        }
        let mut manual_zones: Vec<ManualZone> = Vec::new();
        let mut confirmed: Vec<ZoneColor> = Vec::new();
        let zones = Zone::all();
        let mut i: usize = 0;
        while i < 4
            invariant
                0 <= i <= 4,
                config_valid(self.config),
                zones == [Zone::LeftRear, Zone::LeftFront, Zone::RightFront, Zone::RightRear],
                manual_zones@.len() == i,
                confirmed@.len() == i,
                forall|j: int| 0 <= j < i ==> #[trigger] manual_zones@[j] == setting_for(self.config.manual_zones, id_of_zone(zones[j])),
                forall|j: int| 0 <= j < i ==> #[trigger] confirmed@[j] == (ZoneColor {
                    zone: id_of_zone(zones[j]),
                    color: crate::color::color_of_rgb(self.confirmed_colors.0[j]),
                }),
            decreases 4 - i,
        {
            let zone = zones[i];
            manual_zones.push(*self.manual_setting(zone));
            confirmed.push(ZoneColor { zone: ZoneId::from(zone), color: RgbColor::from(self.confirmed_colors.get(zone)) });
            i = i + 1;
        }
        assert(manual_zones@ =~= seq![
            setting_for(self.config.manual_zones, ZoneId::LeftRear),
            setting_for(self.config.manual_zones, ZoneId::LeftFront),
            setting_for(self.config.manual_zones, ZoneId::RightFront),
            setting_for(self.config.manual_zones, ZoneId::RightRear),
        ]);
        assert(confirmed@ =~= seq![
            ZoneColor { zone: ZoneId::LeftRear, color: crate::color::color_of_rgb(self.confirmed_colors.0[0]) },
            ZoneColor { zone: ZoneId::LeftFront, color: crate::color::color_of_rgb(self.confirmed_colors.0[1]) },
            ZoneColor { zone: ZoneId::RightFront, color: crate::color::color_of_rgb(self.confirmed_colors.0[2]) },
            ZoneColor { zone: ZoneId::RightRear, color: crate::color::color_of_rgb(self.confirmed_colors.0[3]) },
        ]);
        ServiceSnapshot {
            api_version: API_VERSION,
            revision: self.revision,
            lights_enabled: self.config.lights_enabled,
            mode: self.config.mode,
            manual_zones,
            pending: self.pending,
            capture_backend: None,
            service_health: self.service_health,
            device_health: self.device_health,
            capture_health: self.capture_health,
            writer_health: self.writer_health,
            diagnostics: self.diagnostics,
            confirmed_colors: confirmed,
            setup_complete: self.config.setup_complete,
        }
    }
}

/// The revision advances exactly when a request changes the model's
/// client-visible state (everything but the revision itself).
pub proof fn lemma_revision_tracks_changes(
    state: ModelState,
    updates: Seq<ManualZoneUpdate>,
    mode: LightingMode,
    enabled: bool,
    colors: ZoneColors,
)
    ensures
        ({
            let next = manual_update_step(state, updates).0;
            next.revision == revision_after(state.revision, unrevised(next) != unrevised(state))
        }),
        ({
            let next = set_mode_step(state, mode).0;
            next.revision == revision_after(state.revision, unrevised(next) != unrevised(state))
        }),
        ({
            let next = set_lights_step(state, enabled).0;
            next.revision == revision_after(state.revision, unrevised(next) != unrevised(state))
        }),
        pending_step(state).revision == revision_after(
            state.revision,
            unrevised(pending_step(state)) != unrevised(state),
        ),
        confirm_step(state, colors).revision == revision_after(
            state.revision,
            unrevised(confirm_step(state, colors)) != unrevised(state),
        ),
        failure_step(state).revision == revision_after(
            state.revision,
            unrevised(failure_step(state)) != unrevised(state),
        ),
        setup_complete_step(state).revision == revision_after(
            state.revision,
            unrevised(setup_complete_step(state)) != unrevised(state),
        ),
{
    let next = manual_update_step(state, updates).0;
    if manual_updates_verdict(updates) is Ok && state.config.mode != LightingMode::ContentAware {
        let zones = apply_updates(state.config.manual_zones, updates, updates.len());
        if unrevised(next) == unrevised(state) {
            assert(unrevised(next).config.manual_zones == zones);
        }
    }
    let m = set_mode_step(state, mode).0;
    if mode != state.config.mode {
        assert(unrevised(m).config.mode != unrevised(state).config.mode);
    }
    let l = set_lights_step(state, enabled).0;
    if enabled != state.config.lights_enabled {
        assert(unrevised(l).config.lights_enabled != unrevised(state).config.lights_enabled);
    }
    let p = pending_step(state);
    if !state.pending {
        assert(unrevised(p).pending != unrevised(state).pending);
    }
    let c = confirm_step(state, colors);
    if state.confirmed_colors != colors {
        assert(unrevised(c).confirmed_colors != unrevised(state).confirmed_colors);
    } else if state.pending {
        assert(unrevised(c).pending != unrevised(state).pending);
    } else if state.writer_health != HealthState::Ready {
        assert(unrevised(c).writer_health != unrevised(state).writer_health);
    } else {
        assert(unrevised(c) == unrevised(state));
    }
    let f = failure_step(state);
    if state.writer_health != HealthState::Failed {
        assert(unrevised(f).writer_health != unrevised(state).writer_health);
    } else {
        assert(unrevised(f) == unrevised(state));
    }
    let u = setup_complete_step(state);
    if !state.config.setup_complete {
        assert(unrevised(u).config.setup_complete != unrevised(state).config.setup_complete);
    } else {
        assert(unrevised(u).config == unrevised(state).config);
    }
}

/// Only a confirmed write changes the confirmed colors; every other
/// request leaves them, and a failed write also leaves the pending flag, as
/// they were.
pub proof fn lemma_only_confirmation_changes_confirmed_colors(
    state: ModelState,
    updates: Seq<ManualZoneUpdate>,
    mode: LightingMode,
    enabled: bool,
)
    ensures
        manual_update_step(state, updates).0.confirmed_colors == state.confirmed_colors,
        set_mode_step(state, mode).0.confirmed_colors == state.confirmed_colors,
        set_lights_step(state, enabled).0.confirmed_colors == state.confirmed_colors,
        pending_step(state).confirmed_colors == state.confirmed_colors,
        failure_step(state).confirmed_colors == state.confirmed_colors,
        failure_step(state).pending == state.pending,
        setup_complete_step(state).confirmed_colors == state.confirmed_colors,
{
}

/// Turning the lights off demands a priority blackout and makes the manual
/// target black while keeping the mode and the manual settings; turning
/// them back on resumes the saved mode with the same settings.
pub proof fn lemma_lights_off_then_on_resumes(state: ModelState)
    requires
        state.config.lights_enabled,
    ensures
        ({
            let (off, blackout) = set_lights_step(state, false);
            let (on, resumed) = set_lights_step(off, true);
            &&& blackout == ModelEffect::PriorityBlackout
            &&& manual_target_of(off.config) == all_black()
            &&& off.config.mode == state.config.mode
            &&& off.config.manual_zones == state.config.manual_zones
            &&& unrevised(on) == unrevised(state)
            &&& resumed == if state.config.mode == LightingMode::Manual {
                ModelEffect::Write(manual_target_of(state.config))
            } else {
                ModelEffect::StartContentAware
            }
        }),
{
    let (off, _) = set_lights_step(state, false);
    let (on, _) = set_lights_step(off, true);
    assert(on.config == state.config);
}

/// A grouped update changes exactly the settings of the zones it names:
/// each named zone takes the update's color and brightness, every other
/// setting stays as it was, and no setting changes its zone.
pub proof fn lemma_updates_change_only_named_zones(
    zones: [ManualZone; 4],
    updates: Seq<ManualZoneUpdate>,
    n: nat,
    p: int,
)
    requires
        n <= updates.len(),
        0 <= p < 4,
        forall|i: int, j: int|
            0 <= i < j < updates.len() ==> #[trigger] updates[i].zone != #[trigger] updates[j].zone,
    ensures
        apply_updates(zones, updates, n)[p].zone == zones[p].zone,
        (forall|i: int| 0 <= i < n ==> #[trigger] updates[i].zone != zones[p].zone) ==> apply_updates(
            zones,
            updates,
            n,
        )[p] == zones[p],
        forall|i: int|
            0 <= i < n && #[trigger] updates[i].zone == zones[p].zone ==> apply_updates(
                zones,
                updates,
                n,
            )[p] == (ManualZone {
                zone: updates[i].zone,
                color: updates[i].color,
                brightness: updates[i].brightness,
            }),
    decreases n,
{
    if n > 0 {
        lemma_updates_change_only_named_zones(zones, updates, (n - 1) as nat, p);
        let k = n - 1;
        assert forall|i: int|
            0 <= i < n && #[trigger] updates[i].zone == zones[p].zone implies apply_updates(
                zones,
                updates,
                n,
            )[p] == (ManualZone {
                zone: updates[i].zone,
                color: updates[i].color,
                brightness: updates[i].brightness,
            }) by {
            if i < k {
                assert(updates[i].zone != updates[k].zone);
            }
        }
    }
}

/// Position of the one setting in `zones` that names `zone`.
fn position_in(zones: &[ManualZone; 4], zone: ZoneId) -> (position: usize)
    requires
        zone_count(*zones, zone) == 1,
    ensures
        position < 4,
        zones[position as int].zone == zone,
        zones[position as int] == setting_for(*zones, zone),
{
    if zones[0].zone == zone {
        0
    } else if zones[1].zone == zone {
        1
    } else if zones[2].zone == zone {
        2
    } else {
        3
    }
}

/// In a valid configuration, the setting at `position` is the only one
/// naming its zone.
proof fn lemma_unique_position(zones: [ManualZone; 4], zone: ZoneId, position: int, other: int)
    requires
        zone_count(zones, zone) == 1,
        0 <= position < 4,
        0 <= other < 4,
        other != position,
        zones[position].zone == zone,
    ensures
        zones[other].zone != zone,
{
}

} // verus!
