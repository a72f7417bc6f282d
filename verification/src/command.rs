//! The commands that the engine issues by itself.
//!
//! A command holds the fields of the protocol message that it stands for, as
//! plain values, so that the engine can say exactly which commands an effect
//! or a sequence consists of.

use crate::effect::ColourSpec;
use lifx_core::{ApplicationRequest, MultiZoneEffectType, HSBK};
use vstd::prelude::*;

verus! {

/// When a multizone light applies a colour change.
#[derive(Clone, Copy, Debug, PartialEq, Eq)]
pub enum Apply {
    /// Keep the change back until a later message applies it.
    NoApply,
    /// Apply this change and every change kept back.
    Apply,
    /// Disregard this change and apply every change kept back.
    ApplyOnly,
}

/// What the zones of a multizone light do by themselves.
#[derive(Clone, Copy, Debug, PartialEq, Eq)]
pub enum ZoneEffect {
    Off,
    Move,
    Reserved1,
    Reserved2,
}

/// A message that the engine sends.
#[allow(inconsistent_fields)]
#[derive(Clone, Copy, Debug, PartialEq, Eq)]
pub enum Command {
    /// Ask every device on the network for its services.
    GetService,
    /// Bring the whole light to `color` within `duration` milliseconds.
    LightSetColor { reserved: u8, color: ColourSpec, duration: u32 },
    /// Bring the zones from `start_index` to `end_index` to `color`.
    SetColorZones { start_index: u8, end_index: u8, color: ColourSpec, duration: u32, apply: Apply },
    /// Start or stop an effect that the light runs by itself.
    SetMultiZoneEffect {
        instance_id: u32,
        typ: ZoneEffect,
        reserved: u16,
        speed: u32,
        duration: u64,
        reserved7: u32,
        reserved8: u32,
        parameters: [u32; 8],
    },
}

/// The protocol message that a command stands for: the variant of
/// `lifx_core::Message` of the same name, with the same fields in the same
/// places.  A colour's four parts are hue, saturation, brightness and kelvin;
/// `Apply` and `ZoneEffect` go to the variants of the same names of
/// `ApplicationRequest` and `MultiZoneEffectType`.
pub uninterp spec fn message_of(command: Command) -> lifx_core::Message;

/// `Message::GetService`.
///
/// Trusted: it is the message of the command of that name.
#[verifier::external_body]
fn get_service() -> (m: lifx_core::Message)
    ensures
        m == message_of(Command::GetService),
{
    lifx_core::Message::GetService
}

/// `Message::LightSetColor` with these fields; the colour's four parts become
/// hue, saturation, brightness and kelvin.
///
/// Trusted: it is the message of the command of that name with these fields.
#[verifier::external_body]
fn light_set_color(reserved: u8, color: ColourSpec, duration: u32) -> (m: lifx_core::Message)
    ensures
        m == message_of((Command::LightSetColor { reserved, color, duration })),
{
    let color = HSBK { hue: color.0, saturation: color.1, brightness: color.2, kelvin: color.3 };
    lifx_core::Message::LightSetColor { reserved, color, duration }
}

/// `Message::SetColorZones` with these fields.
///
/// Trusted: it is the message of the command of that name with these fields.
#[verifier::external_body]
fn set_color_zones(
    start_index: u8,
    end_index: u8,
    color: ColourSpec,
    duration: u32,
    apply: Apply,
) -> (m: lifx_core::Message)
    ensures
        m == message_of(
            (Command::SetColorZones { start_index, end_index, color, duration, apply }),
        ),
{
    let color = HSBK { hue: color.0, saturation: color.1, brightness: color.2, kelvin: color.3 };
    let apply = match apply {
        Apply::NoApply => ApplicationRequest::NoApply,
        Apply::Apply => ApplicationRequest::Apply,
        Apply::ApplyOnly => ApplicationRequest::ApplyOnly,
    };
    lifx_core::Message::SetColorZones { start_index, end_index, color, duration, apply }
}

/// `Message::SetMultiZoneEffect` with these fields.
///
/// Trusted: it is the message of the command of that name with these fields.
#[verifier::external_body]
fn set_multi_zone_effect(
    instance_id: u32,
    typ: ZoneEffect,
    reserved: u16,
    speed: u32,
    duration: u64,
    reserved7: u32,
    reserved8: u32,
    parameters: [u32; 8],
) -> (m: lifx_core::Message)
    ensures
        m == message_of(
            (Command::SetMultiZoneEffect {
                instance_id,
                typ,
                reserved,
                speed,
                duration,
                reserved7,
                reserved8,
                parameters,
            }),
        ),
{
    let typ = match typ {
        ZoneEffect::Off => MultiZoneEffectType::Off,
        ZoneEffect::Move => MultiZoneEffectType::Move,
        ZoneEffect::Reserved1 => MultiZoneEffectType::Reserved1,
        ZoneEffect::Reserved2 => MultiZoneEffectType::Reserved2,
    };
    lifx_core::Message::SetMultiZoneEffect {
        instance_id, typ, reserved, speed, duration, reserved7, reserved8, parameters,
    }
}

impl Command {
    /// The protocol message that this command stands for: each command goes
    /// to the variant of its own name, field by field.
    pub fn message(&self) -> (m: lifx_core::Message)
        ensures
            m == message_of(*self),
    {
        match *self {
            Command::GetService => get_service(),
            Command::LightSetColor { reserved, color, duration } => light_set_color(
                reserved,
                color,
                duration,
            ),
            Command::SetColorZones { start_index, end_index, color, duration, apply } => {
                set_color_zones(start_index, end_index, color, duration, apply)
            },
            Command::SetMultiZoneEffect {
                instance_id,
                typ,
                reserved,
                speed,
                duration,
                reserved7,
                reserved8,
                parameters,
            } => set_multi_zone_effect(
                instance_id,
                typ,
                reserved,
                speed,
                duration,
                reserved7,
                reserved8,
                parameters,
            ),
        }
    }
}

} // verus!
