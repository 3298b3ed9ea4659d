//! Build-time configuration of the controller.
//!
//! Everything here is fixed for the process lifetime: the allowlist, the
//! sector key, the target block, the read/write mode flag, the PWM duty
//! range, the actuation hold times and the inter-poll interval.

use vstd::prelude::*;

use crate::identifier::AllowList;

verus! {

/// Byte length of the shared sector key.
pub const KEY_LEN: usize = 6;

/// Byte length of one data block of the authenticated sector.
pub const DATA_BLOCK_LEN: usize = 16;

/// How many times the negative indicator toggles on a mismatch.
pub const BLINK_COUNT: u32 = 12;

/// The fixed configuration the controller runs under.
#[derive(Debug, Clone)]
pub struct Config {
    /// Identifiers authorized to trigger the actuation profile.
    pub allowlist: AllowList,
    /// Shared secret authenticating the target sector, `KEY_LEN` bytes.
    pub key: Vec<u8>,
    /// The block authenticated and then read or written each session.
    pub sector: u8,
    /// True: the session writes the block; false: it reads it.
    pub write: bool,
    /// Full-scale duty value of the PWM channel.
    pub max_duty: u16,
    /// Hold time at the unlocked position, milliseconds.
    pub unlock_hold_ms: u32,
    /// Hold time while returning to the locked position, milliseconds.
    pub lock_hold_ms: u32,
    /// On/off time of one negative-indicator blink, milliseconds.
    pub blink_interval_ms: u32,
    /// Settling time between poll cycles, milliseconds.
    pub poll_interval_ms: u32,
}

/// Mathematical image of a `Config`.
pub struct ConfigV {
    pub allowlist: Seq<Seq<u8>>,
    pub key: Seq<u8>,
    pub sector: u8,
    pub write: bool,
    pub max_duty: u16,
    pub unlock_hold_ms: u32,
    pub lock_hold_ms: u32,
    pub blink_interval_ms: u32,
    pub poll_interval_ms: u32,
}

impl View for Config {
    type V = ConfigV;

    open spec fn view(&self) -> ConfigV {
        ConfigV {
            allowlist: self.allowlist@,
            key: self.key@,
            sector: self.sector,
            write: self.write,
            max_duty: self.max_duty,
            unlock_hold_ms: self.unlock_hold_ms,
            lock_hold_ms: self.lock_hold_ms,
            blink_interval_ms: self.blink_interval_ms,
            poll_interval_ms: self.poll_interval_ms,
        }
    }
}

impl Config {
    pub open spec fn wf(self) -> bool {
        &&& self.allowlist.wf()
        &&& self.key@.len() == KEY_LEN
    }
}

/// Duty cycle of the unlocked actuator position: a tenth of full scale.
pub open spec fn unlock_duty(cfg: ConfigV) -> u16 {
    (cfg.max_duty as int / 10) as u16
}

/// Duty cycle of the locked actuator position: a twentieth of full scale.
pub open spec fn lock_duty(cfg: ConfigV) -> u16 {
    (cfg.max_duty as int / 20) as u16
}

} // verus!
