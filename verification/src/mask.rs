//! The mask window's command layer: the commands the outside control plane
//! pushes in, the window geometry that follows a device rotation, and the
//! atomic activation of a validated mapping configuration.
use vstd::prelude::*;

use crate::config::LocalConfig;
use crate::mapping::config::{
    spec_config_valid, spec_family_count, spec_family_idx, spec_violations,
    validate_mapping_config, ActiveMappingConfig, BindMappingConfig, MappingConfig,
};
use crate::mapping::utils::Size;
use crate::scaler::{clamp_i32_from_i128, clamp_i32_from_i64, spec_clamp_i32};

verus! {

/// A command for the mask window, sent with a single-use reply channel.
pub enum MaskCommand {
    WinMove { left: i32, top: i32, right: i32, bottom: i32 },
    DeviceConnectionChange { connect: bool },
    GetActiveMapping,
    ValidateMappingConfig { config: MappingConfig },
    LoadAndActivateMappingConfig { file_name: String },
}

/// The mask window's current pixel size — one of the three coordinate
/// spaces.
#[derive(Clone, Copy, Debug, PartialEq, Eq, Structural)]
pub struct MaskSize(pub Size);

/// Whether the mapping engine runs.
#[derive(Clone, Copy, Debug, PartialEq, Eq, Structural)]
pub enum MappingState {
    Stop,
    Normal,
}

/// How the virtual cursor is driven.
#[derive(Clone, Copy, Debug, PartialEq, Eq, Structural)]
pub enum CursorState {
    Normal,
    Bounded,
    Fire,
}

/// The mask window frame that fits a device of the given size: in landscape
/// the configured width governs and the height keeps the device's aspect
/// ratio, in portrait the configured height governs and the width follows;
/// the position is the configured corner for that orientation. The derived
/// dimension rounds to the nearest pixel.
pub fn mask_win_move_helper(device_w: u32, device_h: u32, config: &LocalConfig) -> (r: (
    i32,
    i32,
    i32,
    i32,
))
    requires
        device_w > 0,
        device_h > 0,
    ensures
        device_w >= device_h ==> ({
            let mask_h = (2 * (device_h as int) * (config.horizontal_mask_width as int) + (
            device_w as int)) / (2 * (device_w as int));
            &&& r.0 == config.horizontal_position.0
            &&& r.1 == config.horizontal_position.1
            &&& r.2 as int == spec_clamp_i32(
                config.horizontal_position.0 + config.horizontal_mask_width as int,
            )
            &&& r.3 as int == spec_clamp_i32(config.horizontal_position.1 + mask_h)
        }),
        device_w < device_h ==> ({
            let mask_w = (2 * (device_w as int) * (config.vertical_mask_height as int) + (
            device_h as int)) / (2 * (device_h as int));
            &&& r.0 == config.vertical_position.0
            &&& r.1 == config.vertical_position.1
            &&& r.2 as int == spec_clamp_i32(config.vertical_position.0 + mask_w)
            &&& r.3 as int == spec_clamp_i32(
                config.vertical_position.1 + config.vertical_mask_height as int,
            )
        }),
{
    if device_w >= device_h {
        let left = config.horizontal_position.0;
        let top = config.horizontal_position.1;
        let mask_w = config.horizontal_mask_width;
        proof {
            assert(2 * (device_h as u128) * (mask_w as u128) <= 2 * 0xffff_ffffu128
                * 0xffff_ffffu128) by (nonlinear_arith)
                requires
                    device_h as u128 <= 0xffff_ffff,
                    mask_w as u128 <= 0xffff_ffff,
            ;
        }
        let mask_h: u128 = (2 * (device_h as u128) * (mask_w as u128) + (device_w as u128)) / (2 * (
        device_w as u128));
        let right = clamp_i32_from_i64(left as i64 + mask_w as i64);
        proof {
            vstd::arithmetic::div_mod::lemma_div_pos_is_pos(
                (2 * (device_h as u128) * (mask_w as u128) + (device_w as u128)) as int,
                (2 * (device_w as u128)) as int,
            );
            vstd::arithmetic::div_mod::lemma_div_is_ordered(
                (2 * (device_h as u128) * (mask_w as u128) + (device_w as u128)) as int,
                0x3_ffff_fffe_0000_0004,
                (2 * (device_w as u128)) as int,
            );
            vstd::arithmetic::div_mod::lemma_div_is_ordered_by_denominator(
                0x3_ffff_fffe_0000_0004,
                2,
                (2 * (device_w as u128)) as int,
            );
        }
        let bottom = clamp_i32_from_i128(top as i128 + mask_h as i128);
        (left, top, right, bottom)
    } else {
        let left = config.vertical_position.0;
        let top = config.vertical_position.1;
        let mask_h = config.vertical_mask_height;
        proof {
            assert(2 * (device_w as u128) * (mask_h as u128) <= 2 * 0xffff_ffffu128
                * 0xffff_ffffu128) by (nonlinear_arith)
                requires
                    device_w as u128 <= 0xffff_ffff,
                    mask_h as u128 <= 0xffff_ffff,
            ;
        }
        let mask_w: u128 = (2 * (device_w as u128) * (mask_h as u128) + (device_h as u128)) / (2 * (
        device_h as u128));
        proof {
            vstd::arithmetic::div_mod::lemma_div_pos_is_pos(
                (2 * (device_w as u128) * (mask_h as u128) + (device_h as u128)) as int,
                (2 * (device_h as u128)) as int,
            );
        }
        let right = clamp_i32_from_i128(left as i128 + mask_w as i128);
        let bottom = clamp_i32_from_i64(top as i64 + mask_h as i64);
        (left, top, right, bottom)
    }
}

/// The window size a move command carries: width and height of the frame,
/// never negative.
pub fn win_move_size(left: i32, top: i32, right: i32, bottom: i32) -> (r: (u32, u32))
    ensures
        right as int - left as int >= 0 && right as int - left as int <= 0xffff_ffff ==> r.0
            == right - left,
        bottom as int - top as int >= 0 && bottom as int - top as int <= 0xffff_ffff ==> r.1
            == bottom - top,
{
    let w64: i64 = right as i64 - left as i64;
    let h64: i64 = bottom as i64 - top as i64;
    let w: u32 = if w64 < 0 {
        0
    } else if w64 > 0xffff_ffff {
        0xffff_ffffu32
    } else {
        w64 as u32
    };
    let h: u32 = if h64 < 0 {
        0
    } else if h64 > 0xffff_ffff {
        0xffff_ffffu32
    } else {
        h64 as u32
    };
    (w, h)
}

/// Validates and activates a mapping configuration in one step: a valid
/// configuration is bound to action slots — every entry kept in order, each
/// taking its family's next slot — and swapped in atomically together with
/// its file name; an invalid one leaves the active configuration untouched
/// and reports every violation.
pub fn activate_mapping(
    active: &mut ActiveMappingConfig,
    config: MappingConfig,
    file_name: String,
) -> (r: Result<(), Vec<String>>)
    requires
        config.mappings@.len() <= 0xffff_ffff,
    ensures
        r is Ok <==> spec_config_valid(config.mappings@),
        r is Ok ==> (final(active).config matches Some(b) && b.version == config.version
            && b.original_size == config.original_size && b.mappings@.len()
            == config.mappings@.len() && (forall|i: int|
            0 <= i < config.mappings@.len() ==> (#[trigger] b.mappings@[i]).1
                == config.mappings@[i]) && (forall|i: int|
            0 <= i < config.mappings@.len() ==> (#[trigger] b.mappings@[i]).0.family
                == config.mappings@[i].spec_family() && b.mappings@[i].0.slot
                == spec_family_count(
                config.mappings@,
                spec_family_idx(config.mappings@[i].spec_family()),
                i + 1,
            ))) && final(active).file_name == file_name,
        r matches Err(errs) ==> *final(active) == *old(active) && errs@.len() == spec_violations(
            config.mappings@,
            config.mappings@.len() as int,
        ),
{
    match validate_mapping_config(&config) {
        Ok(_) => {
            let bound = BindMappingConfig::from_config(config);
            active.config = Some(bound);
            active.file_name = file_name;
            Ok(())
        },
        Err(errs) => Err(errs),
    }
}

/// The state changes a main-device connection change drives: on connect the
/// engine starts and the mask shows; on disconnect the cursor resets, the
/// engine stops and the mask hides.
pub fn device_connection_change(connect: bool) -> (r: (MappingState, CursorState, bool))
    ensures
        connect ==> r == (MappingState::Normal, CursorState::Normal, true),
        !connect ==> r == (MappingState::Stop, CursorState::Normal, false),
{
    if connect {
        (MappingState::Normal, CursorState::Normal, true)
    } else {
        (MappingState::Stop, CursorState::Normal, false)
    }
}

/// The name of the active mapping file, as the control plane queries it.
pub fn get_active_mapping(active: &ActiveMappingConfig) -> (r: String)
    ensures
        r == active.file_name,
{
    active.file_name.clone()
}

} // verus!
